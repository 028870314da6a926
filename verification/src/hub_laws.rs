//! What hubs, accounts and settings do for those who use them.

use crate::account::{AuthenticationInfo, AuthenticationInfoView, HubInfo, HubInfoView};
use crate::channel::{
    accepted, channel, copies, receiver_queue, refusal, refused, sender_queue, ChannelView,
};
use crate::hub::{
    is_broadcast, is_joined, is_routed, ChannelHandle, ChannelSender, Error, Event, EventView,
    HubView, Message, MessageView, Receiver, Sender,
};
use crate::hub_manager::{
    is_entry, is_hub_joined, is_hub_routed, is_joinable, is_lookup, no_hubs, opened, Connection,
    GatewayLink, HubHandle, HubManagerView, LookupStep,
};
use crate::irc_gateway::{is_membership, Membership};
use crate::password::{is_password, verification};
use crate::settings::{database_of, settings_of, Settings, SettingsView};
use crate::slack_gateway::{is_first_start, new_gateway, Error as SlackError};
use crate::store::{is_found, Rows};
use vstd::prelude::*;

verus! {

/// What an event shows of itself is all of it.
pub proof fn law_event_is_shown_whole(event: Event)
    ensures
        event@.from == event.from,
        event@.to == event.to,
        match event.message {
            Message::NewChannel => event@.message is NewChannel,
            Message::Message(user, channel, text) => event@.message == MessageView::Message(
                user@,
                channel@,
                text@,
            ),
            Message::AdminMessage(text) => event@.message == MessageView::AdminMessage(text@),
            Message::AdminCommand(command, args) => {
                &&& event@.message matches MessageView::AdminCommand(c, a)
                &&& c == command@
                &&& a.len() == args@.len()
                &&& forall|i: int| 0 <= i < a.len() ==> #[trigger] a[i] == args@[i]@
            },
            Message::Error(text) => event@.message == MessageView::Error(text@),
        },
{
}

/// What is stored about a hub is shown whole.
pub proof fn law_account_is_shown_whole(info: HubInfo)
    ensures
        info@.id == info.id,
        info@.workspace == info.workspace@,
        info@.nick == info.nick@,
        info@.settings.pass == info.settings.pass@,
        info.settings.token matches Some(token) ==> info@.settings.token == Some(token@),
        info.settings.token is None ==> info@.settings.token is None,
{
}

/// `event` is the one thing that a channel has been given since `before`, and
/// its queue took it.
pub open spec fn got_just(before: ChannelView, event: EventView, after: ChannelView) -> bool {
    &&& after.accepted == before.accepted + seq![event]
    &&& after.refused == before.refused
    &&& after.queue == before.queue
    &&& after.copies == before.copies
}

/// A sender in the place of `before` was given just `event`, which its queue did
/// not take.
pub open spec fn turned_down(before: ChannelView, event: EventView) -> bool {
    exists|tx: Sender|
        {
            &&& #[trigger] refused(tx) == before.refused + seq![event]
            &&& accepted(tx) == before.accepted
            &&& sender_queue(tx) == before.queue
            &&& copies(tx) == before.copies
        }
}

/// What a refusal means for the handle that was refused.
pub proof fn lemma_turned_down(before: ChannelView, event: EventView)
    requires
        refusal(before, event),
    ensures
        turned_down(before, event),
{
    let tx = choose|tx: Sender| #[trigger] channel(tx) == before.offered(event, false);
    assert(channel(tx).refused =~= before.refused + seq![event]);
    assert(refused(tx) == before.refused + seq![event]);
}

/// What passing on an event does to each channel: one that the event is for has
/// it as its latest, and as the only new one, or else could not be reached and
/// is gone; any other is as it was. One that could not be reached before does
/// not come back.
pub proof fn law_routing_is_exact(
    before: Map<ChannelHandle, ChannelView>,
    event: EventView,
    after: Map<ChannelHandle, ChannelView>,
    k: ChannelHandle,
)
    requires
        is_routed(before, event, after),
    ensures
        !before.contains_key(k) ==> !after.contains_key(k),
        before.contains_key(k) ==> {
            let concerned = match event.to {
                Some(to) => k == to,
                None => k != event.from,
            };
            if !concerned {
                after.contains_key(k) && after[k] == before[k]
            } else if after.contains_key(k) {
                got_just(before[k], event, after[k]) && before[k].refused.len() == 0
            } else {
                turned_down(before[k], event)
            }
        },
{
    if before.contains_key(k) {
        if after.contains_key(k) {
            assert(before[k].accepted.push(event) =~= before[k].accepted + seq![event]);
        } else {
            lemma_turned_down(before[k], event);
        }
    } else {
        assert(!before.dom().contains(k));
        if after.contains_key(k) {
            assert(after.dom().contains(k));
        }
    }
}

/// What saying something to all does to each channel: it reaches everybody but
/// the one who says it, once.
pub proof fn law_broadcast_is_exact(
    before: Map<ChannelHandle, ChannelView>,
    from: ChannelHandle,
    message: MessageView,
    after: Map<ChannelHandle, ChannelView>,
    k: ChannelHandle,
)
    requires
        is_broadcast(before, from, message, after),
    ensures
        !before.contains_key(k) ==> !after.contains_key(k),
        before.contains_key(k) && k == from ==> after.contains_key(k) && after[k] == before[k],
        before.contains_key(k) && k != from ==> {
            let event = EventView { from, to: None, message };
            if after.contains_key(k) {
                got_just(before[k], event, after[k]) && before[k].refused.len() == 0
            } else {
                turned_down(before[k], event)
            }
        },
{
    law_routing_is_exact(before, EventView { from, to: None, message }, after, k);
}

/// What joining does: the newcomer gets the number after the largest in use, or
/// one, a queue that nothing has been put into, and a sender that has not sent
/// anything; every other channel is told who has joined, and nothing else; the
/// hub itself says nothing.
pub proof fn law_joining_is_exact(
    before: HubView,
    sender: ChannelSender,
    rx: Receiver,
    after: HubView,
    k: ChannelHandle,
)
    requires
        is_joined(before, sender, rx, after),
    ensures
        before.channels.contains_key(k) ==> k < sender.id(),
        sender.id() == 1 || before.channels.contains_key((sender.id() - 1) as usize),
        sender.id() >= 1,
        sender@.queue == before.own.queue,
        sender@.accepted.len() == 0,
        sender@.refused.len() == 0,
        sender@.copies == 0,
        after.channels.contains_key(sender.id()),
        after.channels[sender.id()].queue == receiver_queue(rx),
        after.channels[sender.id()].accepted.len() == 0,
        after.channels[sender.id()].refused.len() == 0,
        after.channels[sender.id()].copies == 0,
        after.own.queue == before.own.queue,
        after.own.accepted == before.own.accepted,
        after.own.refused == before.own.refused,
        after.own.copies == before.own.copies + 1,
        k != sender.id() && after.channels.contains_key(k) ==> before.channels.contains_key(k),
        before.channels.contains_key(k) ==> {
            let news = EventView {
                from: sender.id(),
                to: None,
                message: MessageView::NewChannel,
            };
            if after.channels.contains_key(k) {
                got_just(before.channels[k], news, after.channels[k])
            } else {
                turned_down(before.channels[k], news)
            }
        },
{
    let newcomer = ChannelView::unused(receiver_queue(rx));
    let with_newcomer = before.channels.insert(sender.id(), newcomer);
    assert(before.channels.contains_key(k) ==> before.channels.dom().contains(k));
    law_broadcast_is_exact(
        with_newcomer,
        sender.id(),
        MessageView::NewChannel,
        after.channels,
        k,
    );
}

/// What joining one of the hubs does to the others: nothing.
pub proof fn law_joining_concerns_one_hub(
    before: HubManagerView,
    hub: HubHandle,
    sender: ChannelSender,
    rx: Receiver,
    after: HubManagerView,
    other: HubHandle,
)
    requires
        is_hub_joined(before, hub, sender, rx, after),
    ensures
        before.hubs.contains_key(hub),
        after.hubs.contains_key(hub),
        is_joined(before.hubs[hub], sender, rx, after.hubs[hub]),
        after.settings == before.settings,
        other != hub ==> {
            &&& after.hubs.contains_key(other) == before.hubs.contains_key(other)
            &&& before.hubs.contains_key(other) ==> after.hubs[other] == before.hubs[other]
        },
{
}

/// What passing on an event in one of the hubs does: it concerns that hub alone,
/// and puts nothing into the queue of the hub itself.
pub proof fn law_routing_concerns_one_hub(
    before: HubManagerView,
    hub: HubHandle,
    event: EventView,
    after: HubManagerView,
    other: HubHandle,
)
    requires
        is_hub_routed(before, hub, event, after),
    ensures
        after.settings == before.settings,
        after.hubs.contains_key(other) == before.hubs.contains_key(other),
        before.hubs.contains_key(other) && other != hub ==> after.hubs[other]
            == before.hubs[other],
        before.hubs.contains_key(hub) ==> {
            &&& is_routed(before.hubs[hub].channels, event, after.hubs[hub].channels)
            &&& after.hubs[hub].own == before.hubs[hub].own
        },
{
}

/// Who is let into a hub, and what they find: with the right password the hub of
/// their account, in use already or else new, and with a wrong one nothing. The
/// gateway of a new hub is given the account as it is, its token with it, the
/// settings of the server, and the first channel.
pub proof fn law_entering_is_exact(
    before: HubManagerView,
    admitted: bool,
    info: HubInfoView,
    res: Result<Connection, Error>,
    after: HubManagerView,
    other: HubHandle,
    k: ChannelHandle,
)
    requires
        is_entry(before, admitted, info, res, after),
    ensures
        admitted <==> res is Ok,
        !admitted ==> res->Err_0 is WrongPassword && after == before,
        after.settings == before.settings,
        other != info.id || !admitted ==> {
            &&& after.hubs.contains_key(other) == before.hubs.contains_key(other)
            &&& before.hubs.contains_key(other) ==> after.hubs[other] == before.hubs[other]
        },
        res matches Ok(connection) ==> {
            &&& connection.hub == info.id
            &&& after.hubs.contains_key(info.id)
            &&& before.hubs.contains_key(info.id) <==> connection.gateway is None
            &&& before.hubs.contains_key(info.id) ==> after == before
            &&& connection.gateway matches Some(link) ==> {
                let hub = after.hubs[info.id];
                &&& link.info@.id == info.id
                &&& link.info@.workspace == info.workspace
                &&& link.info@.nick == info.nick
                &&& link.info@.settings.pass == info.settings.pass
                &&& link.info@.settings.token == info.settings.token
                &&& link.settings@ == before.settings
                &&& link.sender.id() == 1
                &&& link.sender@.queue == receiver_queue(link.hub_rx)
                &&& link.sender@.accepted.len() == 0
                &&& link.sender@.refused.len() == 0
                &&& link.sender@.copies == 0
                &&& hub.own.queue == receiver_queue(link.hub_rx)
                &&& hub.own.accepted.len() == 0
                &&& hub.own.refused.len() == 0
                &&& hub.own.copies == 1
                &&& hub.channels.contains_key(k) <==> k == 1
                &&& hub.channels[1].queue == receiver_queue(link.gateway_rx)
                &&& hub.channels[1].accepted.len() == 0
                &&& hub.channels[1].refused.len() == 0
                &&& hub.channels[1].copies == 0
            }
        },
{
}

/// A client that joins its hub is let into it as any user, and is then one more
/// channel of it.
pub proof fn law_membership_is_exact(
    before: HubManagerView,
    info: HubInfoView,
    membership: Membership,
    between: HubManagerView,
    after: HubManagerView,
)
    requires
        is_membership(before, info, membership, after),
        between == opened(before, info.id, membership.connection.gateway),
    ensures
        is_entry(before, true, info, Ok(membership.connection), between),
        is_hub_joined(between, info.id, membership.hub_tx, membership.hub_rx, after),
{
}

/// A returning user need not register again: if the store has a token for them,
/// the gateway that is started when they enter logs in to Slack with that token,
/// and if it has none the gateway says so.
pub proof fn law_stored_token_starts_slack(
    rows: Rows,
    auth: AuthenticationInfoView,
    info: HubInfoView,
    before: HubManagerView,
    connection: Connection,
    after: HubManagerView,
    link: GatewayLink,
    start: Result<String, SlackError>,
)
    requires
        is_found(rows, auth.workspace, auth.nick, Some(info)),
        is_entry(before, true, info, Ok(connection), after),
        connection.gateway == Some(link),
        is_first_start(new_gateway(link.sender, link.settings, link.info), start),
    ensures
        link.info@.settings.token == rows[info.id].settings.token,
        link.info@.settings.pass == rows[info.id].settings.pass,
        link.info@.workspace == auth.workspace,
        link.info@.nick == auth.nick,
        link.info@.id == connection.hub,
        match rows[info.id].settings.token {
            Some(token) => start matches Ok(login) && login@ == token,
            None => start == Err::<String, SlackError>(SlackError::NoToken),
        },
{
}

/// What a gateway that has just been made knows is what it was made with.
pub proof fn law_new_gateway_knows_its_hub(link: GatewayLink)
    ensures
        ({
            let gateway = new_gateway(link.sender, link.settings, link.info);
            &&& gateway.handle == link.sender.id()
            &&& gateway.hub_tx == link.sender@
            &&& gateway.hub == link.info@
            &&& gateway.settings == link.settings@
            &&& !gateway.started
        }),
{
}

/// What becomes of a user whose account was looked up: an account that was found
/// is theirs, whatever their password; otherwise they get one under their own
/// workspace and nick, with their own password and without a token, unless that
/// could not be hashed, as one with a NUL never can.
pub proof fn law_lookup_is_exact(
    auth: AuthenticationInfoView,
    found: Option<HubInfo>,
    res: LookupStep,
)
    requires
        is_lookup(auth, found, res),
    ensures
        found matches Some(info) ==> res == LookupStep::Known(info),
        found is None ==> {
            ||| res is Insert
            ||| res is HashFailed
        },
        found is None && auth.pass.contains('\0') ==> res is HashFailed,
        found is None ==> (res matches LookupStep::HashFailed(e) ==> (e.is_nul()
            ==> auth.pass.contains('\0'))),
        found is None ==> (res matches LookupStep::Insert(info) ==> {
            &&& info.id == 0
            &&& info.workspace@ == auth.workspace
            &&& info.nick@ == auth.nick
            &&& info.settings.token is None
            &&& verification(auth.pass, info.settings.pass@) == Some(true)
        }),
{
}

/// A password is right if and only if checking it against the hash succeeds and
/// says so.
pub proof fn law_right_password(password: Seq<char>, hashed: Seq<char>)
    ensures
        is_password(password, hashed) <==> verification(password, hashed) == Some(true),
{
}

/// What the settings of the server are read from: each from the value of its own
/// key, as it is, and missing without one.
pub proof fn law_settings_are_read_by_key(
    values: Map<Seq<char>, Seq<char>>,
    settings: SettingsView,
)
    requires
        settings == settings_of(values),
    ensures
        settings.database is Some <==> values.contains_key("database"@),
        settings.database matches Some(value) ==> value == values["database"@],
        settings.irc_botnick is Some <==> values.contains_key("irc.botnick"@),
        settings.irc_botnick matches Some(value) ==> value == values["irc.botnick"@],
        settings.irc_host is Some <==> values.contains_key("irc.host"@),
        settings.irc_host matches Some(value) ==> value == values["irc.host"@],
        settings.irc_listen is Some <==> values.contains_key("irc.listen"@),
        settings.irc_listen matches Some(value) ==> value == values["irc.listen"@],
        settings.slack_client_id is Some <==> values.contains_key("slack.client_id"@),
        settings.slack_client_id matches Some(value) ==> value == values["slack.client_id"@],
        settings.slack_secret is Some <==> values.contains_key("slack.secret"@),
        settings.slack_secret matches Some(value) ==> value == values["slack.secret"@],
{
}

/// Accounts are kept where the settings say, and in memory if they say nothing.
pub proof fn law_accounts_are_kept_where_said(settings: SettingsView)
    ensures
        settings.database matches Some(path) ==> database_of(settings) == path,
        settings.database is None ==> database_of(settings) == ":memory:"@,
{
}

/// Settings are shown whole.
pub proof fn law_settings_are_shown_whole(settings: Settings)
    ensures
        settings@.database is Some == settings.database is Some,
        settings.database matches Some(value) ==> settings@.database == Some(value@),
        settings@.irc_botnick is Some == settings.irc_botnick is Some,
        settings.irc_botnick matches Some(value) ==> settings@.irc_botnick == Some(value@),
        settings@.irc_host is Some == settings.irc_host is Some,
        settings.irc_host matches Some(value) ==> settings@.irc_host == Some(value@),
        settings@.irc_listen is Some == settings.irc_listen is Some,
        settings.irc_listen matches Some(value) ==> settings@.irc_listen == Some(value@),
        settings@.slack_client_id is Some == settings.slack_client_id is Some,
        settings.slack_client_id matches Some(value) ==> settings@.slack_client_id == Some(value@),
        settings@.slack_secret is Some == settings.slack_secret is Some,
        settings.slack_secret matches Some(value) ==> settings@.slack_secret == Some(value@),
{
}

/// Who a client says it is, is shown whole.
pub proof fn law_login_is_shown_whole(auth: AuthenticationInfo)
    ensures
        auth@.workspace == auth.workspace@,
        auth@.nick == auth.nick@,
        auth@.pass == auth.pass@,
{
}

/// A handle is shown whole.
pub proof fn law_handle_is_shown_whole(tx: Sender)
    ensures
        channel(tx).queue == sender_queue(tx),
        channel(tx).accepted == accepted(tx),
        channel(tx).refused == refused(tx),
        channel(tx).copies == copies(tx),
{
}

/// At the beginning no hub is in use, and the settings are those that the server
/// was started with.
pub proof fn law_no_hub_at_the_beginning(settings: SettingsView, hub: HubHandle)
    ensures
        !no_hubs(settings).hubs.contains_key(hub),
        no_hubs(settings).settings == settings,
{
}

/// A hub in use can be joined unless its last handle is in use.
pub proof fn law_hub_can_be_joined(hubs: HubManagerView, hub: HubHandle)
    ensures
        is_joinable(hubs, hub) ==> hubs.hubs.contains_key(hub),
        hubs.hubs.contains_key(hub) ==> (is_joinable(hubs, hub)
            <==> !hubs.hubs[hub].channels.contains_key(usize::MAX)),
{
}

} // verus!
