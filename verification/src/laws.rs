//! What holds of the library as a whole, over several of its operations.

use crate::account::{new_account, with_token, AuthenticationInfoView, HubInfo, HubInfoView};
use crate::channel::{receiver_queue, refusal, ChannelView};
use crate::hub::{
    is_joined, is_routed, ChannelHandle, ChannelSender, Error, EventView, HubView, MessageView,
    Receiver,
};
use crate::hub_manager::{
    is_connection, is_entry, is_hub_joined, is_hub_routed, is_lookup, opened, Connection,
    HubHandle, HubManagerView, LookupStep,
};
use crate::irc_gateway::{
    admin_command, after_message, greeting, hub_reply, is_login, is_login_command, is_membership,
    login_after, IrcGatewayView, Membership, Received,
};
use crate::irc_line::{as_last, fields, is_line_break, line_end, marked, rendered, written};
use crate::irc_message::{message_views, privmsg, CommandView, IrcMessage, IrcMessageView};
use crate::irc_session::{is_step, SessionAction, SessionInput, SessionView, StageView};
use crate::password::is_password;
use crate::settings::SettingsView;
use crate::slack_gateway::{
    instructions, is_handled, is_registration, is_start, AccessReply, Action,
    Error as SlackError, Input, Registration, SlackEvent, SlackGatewayView, SlackMessage,
};
use crate::store::{
    belongs_to, found_view, is_changed, is_found, is_found_or_created, is_inserted, is_store,
    is_store_history, updated, Rows, StoreChange,
};
use crate::text::{first_gap, is_white_space, split_words};
use vstd::prelude::*;

verus! {

/// Passing on an event adds no channel, and takes nothing back that a channel
/// has been given: a channel that stays has what it had, in the same order,
/// and at most one event more, which is the one passed on.
pub proof fn law_routing_only_adds(
    before: Map<ChannelHandle, ChannelView>,
    event: EventView,
    after: Map<ChannelHandle, ChannelView>,
    k: ChannelHandle,
)
    requires
        is_routed(before, event, after),
        after.contains_key(k),
    ensures
        before.contains_key(k),
        after[k] == before[k] || after[k] == before[k].offered(event, true),
        after[k].queue == before[k].queue,
        after[k].refused == before[k].refused,
        after[k].copies == before[k].copies,
{
    assert(before.dom().contains(k));
}

/// A channel leaves a hub only because its queue did not take the event that is
/// passed on.
pub proof fn law_channels_leave_only_when_gone(
    before: Map<ChannelHandle, ChannelView>,
    event: EventView,
    after: Map<ChannelHandle, ChannelView>,
    k: ChannelHandle,
)
    requires
        is_routed(before, event, after),
        before.contains_key(k),
        !after.contains_key(k),
    ensures
        refusal(before[k], event),
        event.to == Some(k) || (event.to is None && event.from != k),
{
}

/// An event for one channel concerns no other.
pub proof fn law_directed_event_is_private(
    before: Map<ChannelHandle, ChannelView>,
    event: EventView,
    after: Map<ChannelHandle, ChannelView>,
    to: ChannelHandle,
    k: ChannelHandle,
)
    requires
        is_routed(before, event, after),
        event.to == Some(to),
        k != to,
    ensures
        after.contains_key(k) == before.contains_key(k),
        before.contains_key(k) ==> after[k] == before[k],
{
}

/// What a channel says to all does not come back to it, and every other channel
/// that stays has it as the latest.
pub proof fn law_everybody_else_hears(
    before: Map<ChannelHandle, ChannelView>,
    event: EventView,
    after: Map<ChannelHandle, ChannelView>,
    k: ChannelHandle,
)
    requires
        is_routed(before, event, after),
        event.to is None,
        before.contains_key(k),
    ensures
        k == event.from ==> after.contains_key(k) && after[k] == before[k],
        k != event.from && after.contains_key(k) ==> after[k].accepted
            == before[k].accepted.push(event),
{
}

/// A channel that joins gets a handle that no other channel of the hub has, and
/// a queue in which there is nothing, not even the news of its own joining. All
/// others that stay have that news as the latest.
pub proof fn law_joining(
    before: HubView,
    sender: ChannelSender,
    rx: Receiver,
    after: HubView,
    k: ChannelHandle,
)
    requires
        is_joined(before, sender, rx, after),
    ensures
        !before.channels.contains_key(sender.id()),
        after.channels.contains_key(sender.id()),
        after.channels[sender.id()] == ChannelView::unused(receiver_queue(rx)),
        sender@ == ChannelView::unused(after.own.queue),
        after.own.accepted == before.own.accepted,
        after.own.refused == before.own.refused,
        k != sender.id() && after.channels.contains_key(k) ==> {
            &&& before.channels.contains_key(k)
            &&& after.channels[k].accepted == before.channels[k].accepted.push(
                EventView { from: sender.id(), to: None, message: MessageView::NewChannel },
            )
        },
{
    let with_newcomer = before.channels.insert(
        sender.id(),
        ChannelView::unused(receiver_queue(rx)),
    );
    assert(!before.channels.dom().contains(sender.id()));
    if k != sender.id() && after.channels.contains_key(k) {
        assert(after.channels.dom().contains(k));
        assert(with_newcomer.contains_key(k));
    }
}

/// Two channels of a hub never have the same handle: whoever joins while a
/// channel is there gets another.
pub proof fn law_handles_are_distinct(
    first: HubView,
    sender1: ChannelSender,
    rx1: Receiver,
    second: HubView,
    third: HubView,
    sender2: ChannelSender,
    rx2: Receiver,
    fourth: HubView,
)
    requires
        is_joined(first, sender1, rx1, second),
        third.channels.contains_key(sender1.id()),
        is_joined(third, sender2, rx2, fourth),
    ensures
        sender1.id() != sender2.id(),
{
    law_joining(third, sender2, rx2, fourth, sender1.id());
}

/// The answer to an event reaches the channel that the event came from: if the
/// one answering sends to that handle, the channel there, if it stays, has the
/// answer as the latest, and nobody else has it.
pub proof fn law_answer_reaches_asker(
    before: Map<ChannelHandle, ChannelView>,
    asked: EventView,
    answerer: ChannelHandle,
    answer: MessageView,
    after: Map<ChannelHandle, ChannelView>,
)
    requires
        is_routed(
            before,
            EventView { from: answerer, to: Some(asked.from), message: answer },
            after,
        ),
    ensures
        after.contains_key(asked.from) ==> after[asked.from].accepted
            == before[asked.from].accepted.push(
            EventView { from: answerer, to: Some(asked.from), message: answer },
        ),
        after.remove(asked.from) == before.remove(asked.from),
{
    assert(after.remove(asked.from) =~= before.remove(asked.from));
}

/// Something that was asked of the hubs, and what came of it.
pub enum HubOperation {
    /// To let a user with this account in, or not.
    Enter(bool, HubInfoView, Result<Connection, Error>),
    /// To make somebody a channel of a hub.
    Join(HubHandle, ChannelSender, Receiver),
    /// To pass on an event from the queue of a hub.
    Route(HubHandle, EventView),
}

/// What an operation makes of the hubs.
pub open spec fn is_operation(
    before: HubManagerView,
    operation: HubOperation,
    after: HubManagerView,
) -> bool {
    match operation {
        HubOperation::Enter(admitted, info, res) => is_entry(before, admitted, info, res, after),
        HubOperation::Join(hub, sender, rx) => is_hub_joined(before, hub, sender, rx, after),
        HubOperation::Route(hub, event) => is_hub_routed(before, hub, event, after),
    }
}

/// The hubs from one operation to the next.
pub open spec fn is_hub_history(
    hubs: Seq<HubManagerView>,
    operations: Seq<HubOperation>,
) -> bool {
    &&& hubs.len() == operations.len() + 1
    &&& forall|i: int|
        0 <= i < operations.len() ==> is_operation(hubs[i], #[trigger] operations[i], hubs[i + 1])
}

/// Whether an operation let somebody into the hub `id`.
pub open spec fn is_entry_into(operation: HubOperation, id: HubHandle) -> bool {
    operation matches HubOperation::Enter(_, info, Ok(_)) && info.id == id
}

/// A client that joins its hub enters it and becomes a channel of it.
pub proof fn law_membership_is_entering_and_joining(
    before: HubManagerView,
    info: HubInfoView,
    membership: Membership,
    after: HubManagerView,
)
    requires
        is_membership(before, info, membership, after),
    ensures
        ({
            let Membership { connection, hub_tx, hub_rx } = membership;
            let between = opened(before, info.id, connection.gateway);
            &&& is_operation(before, HubOperation::Enter(true, info, Ok(connection)), between)
            &&& is_operation(between, HubOperation::Join(info.id, hub_tx, hub_rx), after)
        }),
{
}

/// A hub that is in use stays in use, whatever is asked of the hubs.
pub proof fn law_hubs_stay_in_use(
    hubs: Seq<HubManagerView>,
    operations: Seq<HubOperation>,
    i: int,
    j: int,
    id: HubHandle,
)
    requires
        is_hub_history(hubs, operations),
        0 <= i <= j < hubs.len(),
        hubs[i].hubs.contains_key(id),
    ensures
        hubs[j].hubs.contains_key(id),
    decreases j - i,
{
    if i < j {
        law_hubs_stay_in_use(hubs, operations, i, j - 1, id);
        assert(is_operation(hubs[j - 1], operations[j - 1], hubs[j]));
    }
}

/// A user who enters a hub again, at any later time, is in the same hub: no
/// second gateway is started and nothing changes.
pub proof fn law_entering_again(
    hubs: Seq<HubManagerView>,
    operations: Seq<HubOperation>,
    i: int,
    info1: HubInfoView,
    connection1: Connection,
    j: int,
    info2: HubInfoView,
    connection2: Connection,
)
    requires
        is_hub_history(hubs, operations),
        0 <= i < j < operations.len(),
        operations[i] == HubOperation::Enter(true, info1, Ok(connection1)),
        operations[j] == HubOperation::Enter(true, info2, Ok(connection2)),
        info1.id == info2.id,
    ensures
        connection2.hub == connection1.hub,
        connection2.gateway is None,
        hubs[j + 1] == hubs[j],
{
    assert(is_operation(hubs[i], operations[i], hubs[i + 1]));
    law_hubs_stay_in_use(hubs, operations, i + 1, j, info1.id);
    assert(is_operation(hubs[j], operations[j], hubs[j + 1]));
}

/// A hub is in use if and only if somebody has entered it.
proof fn lemma_in_use(
    hubs: Seq<HubManagerView>,
    operations: Seq<HubOperation>,
    j: int,
    id: HubHandle,
)
    requires
        is_hub_history(hubs, operations),
        hubs[0].hubs == Map::<HubHandle, HubView>::empty(),
        0 <= j < hubs.len(),
    ensures
        hubs[j].hubs.contains_key(id) <==> exists|i: int|
            0 <= i < j && is_entry_into(#[trigger] operations[i], id),
    decreases j,
{
    if j > 0 {
        lemma_in_use(hubs, operations, j - 1, id);
        let last = operations[j - 1];
        assert(is_operation(hubs[j - 1], last, hubs[j]));
        if is_entry_into(last, id) {
            assert(hubs[j].hubs.contains_key(id));
        } else if hubs[j].hubs.contains_key(id) {
            assert(hubs[j - 1].hubs.contains_key(id));
        }
    }
}

/// From the start on, the gateway of a hub is started when somebody enters the
/// hub for the first time, and only then.
pub proof fn law_one_gateway_per_hub(
    hubs: Seq<HubManagerView>,
    operations: Seq<HubOperation>,
    j: int,
    info: HubInfoView,
    connection: Connection,
)
    requires
        is_hub_history(hubs, operations),
        hubs[0].hubs == Map::<HubHandle, HubView>::empty(),
        0 <= j < operations.len(),
        operations[j] == HubOperation::Enter(true, info, Ok(connection)),
    ensures
        connection.gateway is Some <==> !exists|i: int|
            0 <= i < j && is_entry_into(#[trigger] operations[i], info.id),
{
    lemma_in_use(hubs, operations, j, info.id);
    assert(is_operation(hubs[j], operations[j], hubs[j + 1]));
}

/// A store that works goes on working: no user ever has two accounts, and an
/// account stays that of its user.
pub proof fn law_accounts_stay(
    rows: Seq<Rows>,
    changes: Seq<StoreChange>,
    i: int,
    j: int,
    id: u32,
)
    requires
        is_store_history(rows, changes),
        0 <= i <= j < rows.len(),
    ensures
        is_store(rows[j]),
        rows[i].contains_key(id) ==> {
            &&& rows[j].contains_key(id)
            &&& belongs_to(rows[j][id], rows[i][id].workspace, rows[i][id].nick)
        },
    decreases j,
{
    if j > 0 {
        if i < j {
            law_accounts_stay(rows, changes, i, j - 1, id);
        } else {
            law_accounts_stay(rows, changes, j - 1, j - 1, id);
        }
        lemma_change_keeps_store(rows[j - 1], changes[j - 1], rows[j]);
    }
}

/// A change leaves a store that works one that does, and moves no account.
proof fn lemma_change_keeps_store(rows: Rows, change: StoreChange, after: Rows)
    requires
        is_store(rows),
        is_changed(rows, change, after),
    ensures
        is_store(after),
        forall|id: u32| #[trigger]
            rows.contains_key(id) ==> after.contains_key(id) && belongs_to(
                after[id],
                rows[id].workspace,
                rows[id].nick,
            ),
{
}

/// Two users are in one hub if and only if they are the same user of the same
/// workspace, however much later the second enters, and whatever is stored
/// meanwhile; a user who is there already starts no second gateway and adds
/// nothing.
pub proof fn law_one_hub_per_user(
    rows: Seq<Rows>,
    changes: Seq<StoreChange>,
    i: int,
    j: int,
    auth1: AuthenticationInfoView,
    auth2: AuthenticationInfoView,
    hubs: Seq<HubManagerView>,
    operations: Seq<HubOperation>,
    k: int,
    info1: HubInfoView,
    connection1: Connection,
    l: int,
    info2: HubInfoView,
    connection2: Connection,
)
    requires
        is_store_history(rows, changes),
        0 <= i <= j < rows.len(),
        is_found(rows[i], auth1.workspace, auth1.nick, Some(info1)),
        is_found(rows[j], auth2.workspace, auth2.nick, Some(info2)),
        is_hub_history(hubs, operations),
        0 <= k < l < operations.len(),
        operations[k] == HubOperation::Enter(true, info1, Ok(connection1)),
        operations[l] == HubOperation::Enter(true, info2, Ok(connection2)),
    ensures
        connection1.hub == connection2.hub <==> auth1.workspace == auth2.workspace && auth1.nick
            == auth2.nick,
        connection1.hub == connection2.hub ==> connection2.gateway is None && hubs[l + 1]
            == hubs[l],
{
    law_accounts_stay(rows, changes, i, j, info1.id);
    assert(rows[j].contains_key(info2.id));
    assert(is_operation(hubs[k], operations[k], hubs[k + 1]));
    assert(is_operation(hubs[l], operations[l], hubs[l + 1]));
    if info1.id == info2.id {
        law_entering_again(
            hubs,
            operations,
            k,
            info1,
            connection1,
            l,
            info2,
            connection2,
        );
    }
}

/// A user has one account: once it was found or made, it is what is found for
/// that user, with whatever password they come, and none is made again.
pub proof fn law_account_is_made_once(
    rows: Rows,
    auth1: AuthenticationInfoView,
    info: HubInfoView,
    after: Rows,
    auth2: AuthenticationInfoView,
    found: Option<HubInfo>,
    step: LookupStep,
)
    requires
        is_store(rows),
        is_found_or_created(rows, auth1, info, after),
        auth2.workspace == auth1.workspace,
        auth2.nick == auth1.nick,
        is_found(after, auth2.workspace, auth2.nick, found_view(found)),
        is_lookup(auth2, found, step),
    ensures
        is_store(after),
        is_found(after, auth1.workspace, auth1.nick, Some(info)),
        step matches LookupStep::Known(known) && known@ == info,
{
    if after != rows {
        let inserted = choose|inserted: HubInfo|
            {
                &&& #[trigger] is_lookup(auth1, None, LookupStep::Insert(inserted))
                &&& is_inserted(rows, inserted@, after)
                &&& is_found(after, auth1.workspace, auth1.nick, Some(info))
            };
        lemma_change_keeps_store(rows, StoreChange::Insert(inserted@), after);
    }
    assert(after.contains_key(info.id));
}

/// A token that Slack grants lasts: once the store was brought up to date, the
/// account of the user has it and is otherwise as it was, and no other account
/// has changed. A later token takes its place.
pub proof fn law_token_is_stored(
    before: SlackGatewayView,
    from: ChannelHandle,
    token: String,
    res: Result<Option<Action>, Error>,
    after: SlackGatewayView,
    rows: Rows,
    other: u32,
    later: Seq<char>,
)
    requires
        is_store(rows),
        is_found(rows, before.hub.workspace, before.hub.nick, Some(before.hub)),
        is_handled(before, Input::Registered(from, AccessReply::Granted(Some(token))), res, after),
        other != before.hub.id,
    ensures
        is_store(updated(rows, after.hub)),
        is_found(
            updated(rows, after.hub),
            before.hub.workspace,
            before.hub.nick,
            Some(with_token(before.hub, token@)),
        ),
        updated(rows, after.hub).contains_key(other) == rows.contains_key(other),
        rows.contains_key(other) ==> updated(rows, after.hub)[other] == rows[other],
        updated(updated(rows, after.hub), with_token(after.hub, later)) == updated(
            rows,
            with_token(before.hub, later),
        ),
{
    lemma_change_keeps_store(rows, StoreChange::Update(after.hub), updated(rows, after.hub));
    assert(updated(updated(rows, after.hub), with_token(after.hub, later)) =~= updated(
        rows,
        with_token(before.hub, later),
    ));
}

/// The account that is made for a user who logs in for the first time lets them
/// in: it accepts their password, once the store hands it back with the settings
/// that it was given.
pub proof fn law_new_user_gets_in(
    auth: AuthenticationInfoView,
    inserted: HubInfo,
    stored: HubInfoView,
    before: HubManagerView,
    res: Result<Connection, Error>,
    after: HubManagerView,
)
    requires
        is_lookup(auth, None, LookupStep::Insert(inserted)),
        stored.settings == inserted@.settings,
        is_entry(before, is_password(auth.pass, stored.settings.pass), stored, res, after),
    ensures
        res is Ok,
        inserted@.workspace == auth.workspace,
        inserted@.nick == auth.nick,
        inserted@.settings.token is None,
        after.hubs.contains_key(stored.id),
{
}

/// Whoever gives a wrong password learns nothing else and changes nothing.
pub proof fn law_wrong_password_changes_nothing(
    auth: AuthenticationInfoView,
    stored: HubInfoView,
    before: HubManagerView,
    res: Result<Connection, Error>,
    after: HubManagerView,
)
    requires
        is_entry(before, is_password(auth.pass, stored.settings.pass), stored, res, after),
        !is_password(auth.pass, stored.settings.pass),
    ensures
        res == Err::<Connection, Error>(Error::WrongPassword),
        after == before,
{
}

/// Entering a hub leaves the hubs of all other users as they are.
pub proof fn law_hubs_are_separate(
    before: HubManagerView,
    info: HubInfoView,
    connection: Connection,
    other: u32,
)
    requires
        is_connection(before, info, connection),
        other != info.id,
    ensures
        ({
            let after = opened(before, info.id, connection.gateway);
            &&& after.hubs.contains_key(other) == before.hubs.contains_key(other)
            &&& before.hubs.contains_key(other) ==> after.hubs[other] == before.hubs[other]
        }),
{
}

/// The first client of a new hub gets the second handle, and the gateway, which
/// has the first, hears of it if it is still there.
pub proof fn law_gateway_hears_of_first_client(
    before: HubManagerView,
    info: HubInfoView,
    connection: Connection,
    sender: ChannelSender,
    rx: Receiver,
    after: HubView,
)
    requires
        is_connection(before, info, connection),
        connection.gateway is Some,
        is_joined(
            opened(before, info.id, connection.gateway).hubs[info.id],
            sender,
            rx,
            after,
        ),
    ensures
        sender.id() == 2,
        after.channels.contains_key(1) ==> after.channels[1].accepted == seq![
            EventView { from: 2, to: None, message: MessageView::NewChannel },
        ],
        after.channels.contains_key(1) ==> after.channels[1].queue == receiver_queue(
            connection.gateway->0.gateway_rx,
        ),
{
    let hub = opened(before, info.id, connection.gateway).hubs[info.id];
    assert(hub.channels.dom().contains(1));
    law_joining(hub, sender, rx, after, 1);
}

/// While a client logs in nothing is lost: what it sends that is not part of
/// logging in is kept, in the same order.
pub proof fn law_login_keeps_messages(messages: Seq<IrcMessageView>)
    ensures
        login_after(messages).buffered == messages.filter(
            |m: IrcMessageView| !is_login_command(m.command),
        ),
    decreases messages.len(),
{
    reveal(Seq::filter);
    if messages.len() > 0 {
        law_login_keeps_messages(messages.drop_last());
    } else {
        assert(login_after(messages).buffered =~= Seq::<IrcMessageView>::empty());
    }
}

/// The message at `i` gives `nick`, and no later message gives one.
pub open spec fn is_last_nick(messages: Seq<IrcMessageView>, nick: Seq<char>, i: int) -> bool {
    &&& 0 <= i < messages.len()
    &&& messages[i].command == CommandView::NICK(nick)
    &&& forall|j: int| i < j < messages.len() ==> !((#[trigger] messages[j]).command is NICK)
}

/// The message at `i` gives `pass`, and no later message gives one.
pub open spec fn is_last_pass(messages: Seq<IrcMessageView>, pass: Seq<char>, i: int) -> bool {
    &&& 0 <= i < messages.len()
    &&& messages[i].command == CommandView::PASS(pass)
    &&& forall|j: int| i < j < messages.len() ==> !((#[trigger] messages[j]).command is PASS)
}

/// What a client has said about itself while logging in is what it said last.
pub proof fn law_last_word_counts(messages: Seq<IrcMessageView>, nick: Seq<char>, pass: Seq<char>)
    ensures
        login_after(messages).builder.nick == Some(nick) <==> exists|i: int|
            is_last_nick(messages, nick, i),
        login_after(messages).builder.pass == Some(pass) <==> exists|i: int|
            is_last_pass(messages, pass, i),
    decreases messages.len(),
{
    if messages.len() > 0 {
        let rest = messages.drop_last();
        let last = messages.last();
        law_last_word_counts(rest, nick, pass);
        assert(forall|j: int| 0 <= j < rest.len() ==> messages[j] == rest[j]);
        if last.command is NICK {
            assert(last.command == CommandView::NICK(nick) ==> is_last_nick(
                messages,
                nick,
                messages.len() - 1,
            ));
        } else {
            assert forall|i: int| #[trigger]
                is_last_nick(rest, nick, i) == is_last_nick(messages, nick, i) by {}
            if exists|i: int| is_last_nick(messages, nick, i) {
                let i = choose|i: int| is_last_nick(messages, nick, i);
                assert(is_last_nick(rest, nick, i));
            }
        }
        if last.command is PASS {
            assert(last.command == CommandView::PASS(pass) ==> is_last_pass(
                messages,
                pass,
                messages.len() - 1,
            ));
        } else {
            assert forall|i: int| #[trigger]
                is_last_pass(rest, pass, i) == is_last_pass(messages, pass, i) by {}
            if exists|i: int| is_last_pass(messages, pass, i) {
                let i = choose|i: int| is_last_pass(messages, pass, i);
                assert(is_last_pass(rest, pass, i));
            }
        }
    }
}

/// What a client gives to log in has one meaning.
pub proof fn law_login_is_unambiguous(
    nick: Seq<char>,
    pass: Seq<char>,
    auth1: AuthenticationInfoView,
    auth2: AuthenticationInfoView,
)
    requires
        is_login(nick, pass, auth1),
        is_login(nick, pass, auth2),
    ensures
        auth1 == auth2,
{
    let w1 = auth1.workspace;
    let w2 = auth2.workspace;
    assert(pass[w1.len() as int] == '.');
    assert(pass[w2.len() as int] == '.');
    if w1.len() < w2.len() {
        assert(w2[w1.len() as int] == '.');
        assert(w2.contains('.'));
    }
    if w2.len() < w1.len() {
        assert(w1[w2.len() as int] == '.');
        assert(w1.contains('.'));
    }
    assert(w1 =~= pass.take(w1.len() as int));
    assert(w2 =~= pass.take(w2.len() as int));
    assert(auth1.pass =~= pass.skip((w1.len() + 1) as int));
    assert(auth2.pass =~= pass.skip((w2.len() + 1) as int));
}

/// A client can log in to any workspace without a dot in its name, with any
/// password: it puts a dot in between.
pub proof fn law_any_password_can_be_given(auth: AuthenticationInfoView)
    requires
        !auth.workspace.contains('.'),
    ensures
        is_login(auth.nick, auth.workspace + seq!['.'] + auth.pass, auth),
{
}

/// A client enters its hub by giving the password of its account, and in no
/// other way; whatever else happens on a connection leaves all hubs as they are.
pub proof fn law_password_opens_hub(
    before: SessionView,
    hubs: HubManagerView,
    input: SessionInput,
    action: SessionAction,
    after: SessionView,
    hubs_after: HubManagerView,
)
    requires
        before.expects(input),
        is_step(before, hubs, input, action, after, hubs_after),
    ensures
        after.stage is Joined <==> {
            &&& before.stage is LookingUp
            &&& input matches SessionInput::Found(Some(info))
            &&& is_password(before.stage->LookingUp_auth.pass, info@.settings.pass)
        },
        after.stage !is Joined ==> hubs_after == hubs,
{
}

/// A client is told nothing before it is in its hub.
pub proof fn law_silent_until_joined(
    before: SessionView,
    hubs: HubManagerView,
    input: SessionInput,
    action: SessionAction,
    after: SessionView,
    hubs_after: HubManagerView,
)
    requires
        is_step(before, hubs, input, action, after, hubs_after),
    ensures
        action is Greet ==> before.stage is Joined,
        action is Write ==> before.stage is Talking,
{
}

/// A client is greeted once, as the first thing that it is told: entering the
/// hub is followed by the greeting, and from then on there is only conversation
/// until the connection ends.
pub proof fn law_greeted_once(
    before: SessionView,
    hubs: HubManagerView,
    input: SessionInput,
    action: SessionAction,
    after: SessionView,
    hubs_after: HubManagerView,
)
    requires
        is_step(before, hubs, input, action, after, hubs_after),
    ensures
        before.stage matches StageView::Joined { nick, .. } ==> {
            &&& action matches SessionAction::Greet(written, _)
            &&& message_views(written@) == greeting(before.settings.irc_host->0, nick)
            &&& after.stage is Talking
        },
        before.stage is Talking ==> action !is Greet && (after.stage is Talking
            || after.stage is Ended),
{
}

/// A user who connects for the first time gets an account, unless their password
/// could not be hashed, which is never so because of a password without a NUL.
/// Once the store hands the account back with the settings that it was given
/// they enter their hub.
pub proof fn law_first_visit(
    before: SessionView,
    hubs1: HubManagerView,
    first: SessionAction,
    between: SessionView,
    hubs2: HubManagerView,
    hubs3: HubManagerView,
    stored: HubInfo,
    second: SessionAction,
    after: SessionView,
    hubs4: HubManagerView,
)
    requires
        before.stage is LookingUp,
        is_step(before, hubs1, SessionInput::Found(None), first, between, hubs2),
    ensures
        ({
            let auth = before.stage->LookingUp_auth;
            match first {
                SessionAction::Insert(inserted) => {
                    &&& inserted@ == new_account(auth, inserted@.settings.pass)
                    &&& !auth.pass.contains('\0')
                    &&& stored@.settings == inserted@.settings && is_step(
                        between,
                        hubs3,
                        SessionInput::Found(Some(stored)),
                        second,
                        after,
                        hubs4,
                    ) ==> {
                        &&& second is Open
                        &&& after.stage is Joined
                        &&& hubs4.hubs.contains_key(stored@.id)
                    }
                },
                SessionAction::HashFailed(e) => e.is_nul() ==> auth.pass.contains('\0'),
                _ => false,
            }
        }),
{
}

/// A command of a client to the gateway is passed on once: it is the one event
/// that the hub is given for it, and if the connection ends over it the hub
/// refused just that event. What is not such a command gives the hub nothing.
/// Unless it is a PING nothing is written.
pub proof fn law_command_is_passed_on_once(
    before: SessionView,
    hubs: HubManagerView,
    message: IrcMessage,
    action: SessionAction,
    after: SessionView,
    hubs_after: HubManagerView,
    gateway: IrcGatewayView,
)
    requires
        before.stage matches StageView::Talking { gateway: g, .. } && g == gateway,
        is_step(
            before,
            hubs,
            SessionInput::Client(Received::Message(message)),
            action,
            after,
            hubs_after,
        ),
    ensures
        match admin_command(gateway.botnick, message@.command) {
            Some(command) => {
                let event = EventView { from: gateway.handle, to: None, message: command };
                if action is CommandLost {
                    refusal(gateway.hub_tx, event)
                } else {
                    &&& after.stage matches StageView::Talking { gateway: g, .. } && g.hub_tx
                        == gateway.hub_tx.offered(event, true)
                    &&& action matches SessionAction::Write(messages) && messages@.len() == 0
                }
            },
            None => {
                &&& after.stage matches StageView::Talking { gateway: g, .. } && g == gateway
                &&& message@.command !is PING ==> (action matches SessionAction::Write(messages)
                    && messages@.len() == 0)
            },
        },
{
    if let SessionAction::Write(messages) = action {
        assert(message_views(messages@).len() == messages@.len());
    }
}

/// What a client sends while it logs in is not lost: it is all handed to the
/// conversation, in the same order, but for what was part of logging in.
pub proof fn law_early_messages_are_handled(
    messages: Seq<IrcMessageView>,
    last: IrcMessage,
    hubs: Seq<HubManagerView>,
    connected: SessionView,
    find: SessionAction,
    looking_up: SessionView,
    info: HubInfo,
    open: SessionAction,
    joined: SessionView,
    greet: SessionAction,
    talking: SessionView,
)
    requires
        connected.stage == StageView::LoggingIn(login_after(messages)),
        is_step(
            connected,
            hubs[0],
            SessionInput::Client(Received::Message(last)),
            find,
            looking_up,
            hubs[1],
        ),
        looking_up.stage is LookingUp,
        is_step(looking_up, hubs[2], SessionInput::Found(Some(info)), open, joined, hubs[3]),
        joined.stage is Joined,
        is_step(joined, hubs[4], SessionInput::Opened, greet, talking, hubs[5]),
    ensures
        greet matches SessionAction::Greet(_, rest) && message_views(rest@) == messages.push(
            last@,
        ).filter(|m: IrcMessageView| !is_login_command(m.command)),
{
    law_login_keeps_messages(messages.push(last@));
    assert(messages.push(last@).drop_last() =~= messages);
}

/// A text that is the last argument of a command arrives whole: on the wire it
/// either stands behind a colon, which makes it the rest of the line, or is one
/// word that cannot be taken for such a rest.
pub proof fn law_last_argument_arrives(text: Seq<char>)
    ensures
        ({
            let wire = marked(as_last(text));
            ||| wire == seq![':'] + text
            ||| wire == text && text.len() > 0 && text[0] != ':' && !text.contains(' ')
        }),
{
}

/// A message to a client is one line: it ends with a line break, and there is
/// no other in it.
pub proof fn law_one_line_per_message(message: IrcMessageView, i: int)
    requires
        written(message) is Some,
    ensures
        ({
            let line = written(message)->0;
            &&& line.len() > 0
            &&& is_line_break(line.last())
            &&& 0 <= i < line.len() - 1 && is_line_break(line[i]) ==> {
                &&& i == line.len() - 2
                &&& line[i] == '\r'
                &&& line.last() == '\n'
            }
        }),
{
    let (command, args) = fields(message.command)->0;
    let text = rendered(message.prefix, command, args);
    lemma_line_end(text);
    assert(text[text.len() - 2] == '\r');
}

/// Before the end of the first line there is no line break, and there it is.
proof fn lemma_line_end(s: Seq<char>)
    ensures
        line_end(s) <= s.len(),
        forall|i: int| 0 <= i < line_end(s) ==> !is_line_break(#[trigger] s[i]),
        line_end(s) < s.len() ==> is_line_break(s[line_end(s) as int]),
    decreases s.len(),
{
    if s.len() > 0 && !is_line_break(s[0]) {
        let rest = s.drop_first();
        lemma_line_end(rest);
        assert forall|i: int| 0 <= i < line_end(s) implies !is_line_break(#[trigger] s[i]) by {
            if i > 0 {
                assert(rest[i - 1] == s[i]);
            }
        }
    }
}

/// `first_gap` does not go past the end, and there is no white space before it.
proof fn lemma_first_gap_bounds(s: Seq<char>)
    ensures
        first_gap(s) <= s.len(),
        forall|i: int| 0 <= i < first_gap(s) ==> !is_white_space(#[trigger] s[i]),
        first_gap(s) < s.len() ==> is_white_space(s[first_gap(s) as int]),
    decreases s.len(),
{
    if s.len() > 0 && !is_white_space(s[0]) {
        let rest = s.drop_first();
        lemma_first_gap_bounds(rest);
        assert forall|i: int| 0 <= i < first_gap(s) implies !is_white_space(#[trigger] s[i]) by {
            if i > 0 {
                assert(rest[i - 1] == s[i]);
            }
        }
    }
}

/// A word is not empty and has no white space in it.
pub proof fn law_words_are_clean(text: Seq<char>, i: int)
    requires
        0 <= i < split_words(text).len(),
    ensures
        split_words(text)[i].len() > 0,
        forall|j: int|
            0 <= j < split_words(text)[i].len() ==> !is_white_space(
                #[trigger] split_words(text)[i][j],
            ),
    decreases text.len(),
{
    if is_white_space(text[0]) {
        law_words_are_clean(text.drop_first(), i);
    } else {
        lemma_first_gap_bounds(text);
        let end = first_gap(text) as int;
        if i > 0 {
            law_words_are_clean(text.skip(end), i - 1);
        }
    }
}

/// The words of a text are all of it but the white space, in the same order.
pub proof fn law_words_keep_text(text: Seq<char>)
    ensures
        split_words(text).flatten() == text.filter(|c: char| !is_white_space(c)),
    decreases text.len(),
{
    let solid = |c: char| !is_white_space(c);
    if text.len() == 0 {
        reveal(Seq::filter);
        assert(split_words(text).flatten() =~= text.filter(solid));
    } else if is_white_space(text[0]) {
        law_words_keep_text(text.drop_first());
        assert(text =~= seq![text[0]] + text.drop_first());
        Seq::filter_distributes_over_add(seq![text[0]], text.drop_first(), solid);
        lemma_filter_all(seq![text[0]]);
        assert(text.filter(solid) =~= text.drop_first().filter(solid));
    } else {
        lemma_first_gap_bounds(text);
        let end = first_gap(text) as int;
        let word = text.take(end);
        let rest = text.skip(end);
        law_words_keep_text(rest);
        assert(text =~= word + rest);
        Seq::filter_distributes_over_add(word, rest, solid);
        lemma_filter_all(word);
        assert(split_words(text).drop_first() =~= split_words(rest));
    }
}

/// Leaving the white space out of a text without any, or of nothing else.
proof fn lemma_filter_all(s: Seq<char>)
    ensures
        (forall|i: int| 0 <= i < s.len() ==> !is_white_space(#[trigger] s[i])) ==> s.filter(
            |c: char| !is_white_space(c),
        ) == s,
        (forall|i: int| 0 <= i < s.len() ==> is_white_space(#[trigger] s[i])) ==> s.filter(
            |c: char| !is_white_space(c),
        ) == Seq::<char>::empty(),
    decreases s.len(),
{
    reveal(Seq::filter);
    if s.len() > 0 {
        lemma_filter_all(s.drop_last());
        assert(s =~= s.drop_last().push(s.last()));
    } else {
        assert(s.filter(|c: char| !is_white_space(c)) =~= s);
    }
}

/// A word, white space, and the words of what follows.
proof fn lemma_word_first(word: Seq<char>, gap: char, rest: Seq<char>)
    requires
        word.len() > 0,
        forall|i: int| 0 <= i < word.len() ==> !is_white_space(#[trigger] word[i]),
        is_white_space(gap),
    ensures
        split_words(word + seq![gap] + rest) == seq![word] + split_words(rest),
{
    let text = word + seq![gap] + rest;
    lemma_first_gap_bounds(text);
    let end = first_gap(text) as int;
    assert(text[word.len() as int] == gap);
    if end < word.len() {
        assert(text[end] == word[end]);
    }
    assert(end == word.len());
    assert(text.take(end) =~= word);
    let tail = text.skip(end);
    assert(tail[0] == gap);
    assert(tail.drop_first() =~= rest);
    assert(split_words(tail) == split_words(rest));
    assert(text[0] == word[0]);
    assert(!is_white_space(word[0]));
}

/// A text that is one word.
proof fn lemma_single_word(word: Seq<char>)
    requires
        word.len() > 0,
        forall|i: int| 0 <= i < word.len() ==> !is_white_space(#[trigger] word[i]),
    ensures
        split_words(word) == seq![word],
{
    lemma_first_gap_bounds(word);
    assert(first_gap(word) == word.len()) by {
        if first_gap(word) < word.len() {
            assert(is_white_space(word[first_gap(word) as int]));
        }
    }
    assert(word.take(word.len() as int) =~= word);
    assert(split_words(word.skip(word.len() as int)) =~= Seq::<Seq<char>>::empty());
    assert(!is_white_space(word[0]));
    assert(split_words(word) =~= seq![word]);
}

/// What counts as a word: every stretch without white space, from one white space
/// to the next, is one word, and nothing else is.
pub proof fn law_words_are_whole(word: Seq<char>, gap: char, rest: Seq<char>)
    ensures
        split_words(Seq::empty()) == Seq::<Seq<char>>::empty(),
        is_white_space(gap) ==> split_words(seq![gap] + rest) == split_words(rest),
        word.len() > 0 && (forall|i: int|
            0 <= i < word.len() ==> !is_white_space(#[trigger] word[i])) ==> {
            &&& split_words(word) == seq![word]
            &&& is_white_space(gap) ==> split_words(word + seq![gap] + rest) == seq![word]
                + split_words(rest)
        },
{
    assert((seq![gap] + rest).drop_first() =~= rest);
    assert((seq![gap] + rest)[0] == gap);
    if word.len() > 0 && (forall|i: int|
        0 <= i < word.len() ==> !is_white_space(#[trigger] word[i])) {
        lemma_single_word(word);
        if is_white_space(gap) {
            lemma_word_first(word, gap, rest);
        }
    }
}

/// What a user is told to do in order to hand over a code works: a message
/// `register` with the code, sent to the gateway, becomes a request to Slack
/// with that code, to be answered to the channel the message came from.
pub proof fn law_register_hands_over_code(
    botnick: Seq<char>,
    code: Seq<char>,
    settings: SettingsView,
    from: ChannelHandle,
    res: Option<Registration>,
)
    requires
        code.len() > 0,
        forall|i: int| 0 <= i < code.len() ==> !is_white_space(#[trigger] code[i]),
    ensures
        admin_command(botnick, CommandView::PRIVMSG(botnick, "register "@ + code)) == Some(
            MessageView::AdminCommand("register"@, seq![code]),
        ),
        is_registration(settings, from, "register"@, seq![code], res) ==> {
            &&& res matches Some(registration)
            &&& registration.from == from
            &&& registration.request.code@ == code
            &&& registration.request.client_id@ == settings.slack_client_id->0
            &&& registration.request.client_secret@ == settings.slack_secret->0
        },
{
    reveal_strlit("register ");
    reveal_strlit("register");
    let word = "register"@;
    assert("register "@ + code =~= word + seq![' '] + code);
    lemma_word_first(word, ' ', code);
    lemma_single_word(code);
    let list = split_words("register "@ + code);
    assert(list =~= seq![word, code]);
    assert(list.drop_first() =~= seq![code]);
}

/// What a client says to the gateway reaches every other channel of its hub
/// that stays, the gateway among them, word by word and with the client as its
/// origin.
pub proof fn law_command_reaches_gateway(
    before: IrcGatewayView,
    message: IrcMessageView,
    text: Seq<char>,
    channels: Map<ChannelHandle, ChannelView>,
    after: Map<ChannelHandle, ChannelView>,
    gateway: ChannelHandle,
)
    requires
        message.command == CommandView::PRIVMSG(before.botnick, text),
        split_words(text).len() > 0,
        is_routed(channels, after_message(before, message, true).hub_tx.accepted.last(), after),
        gateway != before.handle,
        after.contains_key(gateway),
    ensures
        channels.contains_key(gateway),
        after[gateway].accepted == channels[gateway].accepted.push(
            EventView {
                from: before.handle,
                to: None,
                message: MessageView::AdminCommand(
                    split_words(text)[0],
                    split_words(text).drop_first(),
                ),
            },
        ),
{
    assert(channels.dom().contains(gateway));
}

/// What somebody writes at Slack reaches the IRC client with the same text:
/// the gateway tells all channels, and each client that is told gets it as a
/// message.
pub proof fn law_slack_text_reaches_irc(
    before: SlackGatewayView,
    channel: Option<String>,
    text: Option<String>,
    user: Option<String>,
    action: Option<Action>,
    after: SlackGatewayView,
    nick: Seq<char>,
    botnick: Seq<char>,
)
    requires
        channel is Some,
        text is Some,
        user is Some,
        is_handled(
            before,
            Input::Slack(SlackEvent::Event(SlackMessage::Standard { channel, text, user })),
            Ok(action),
            after,
        ),
    ensures
        after.hub_tx.accepted.len() == before.hub_tx.accepted.len() + 1,
        after.hub_tx.accepted.last().from == before.handle,
        after.hub_tx.accepted.last().to is None,
        hub_reply(nick, botnick, after.hub_tx.accepted.last().message) == Some(
            privmsg("isra"@, "#general"@, text->0@),
        ),
{
}

/// Whether an input says that logging in to Slack succeeded.
pub open spec fn is_successful_login(input: Input) -> bool {
    input matches Input::LoggedIn(outcome) && outcome is Ok
}

/// Whatever reaches the Slack gateway, it stays the same channel of the same
/// hub with the same settings, its Slack client is running if it was before or
/// has just logged in, and what the hub has taken from it stays taken.
pub proof fn law_slack_gateway_keeps(
    before: SlackGatewayView,
    input: Input,
    res: Result<Option<Action>, Error>,
    after: SlackGatewayView,
)
    requires
        is_handled(before, input, res, after),
    ensures
        after.handle == before.handle,
        after.hub_tx.queue == before.hub_tx.queue,
        after.hub_tx.copies == before.hub_tx.copies,
        after.settings == before.settings,
        after.started <==> before.started || is_successful_login(input),
        before.hub_tx.accepted.is_prefix_of(after.hub_tx.accepted),
{
    match input {
        Input::Hub(event) => {
            if event@.message is NewChannel && !before.started {
                let texts = instructions(before.settings.slack_client_id->0);
                if res is Ok {
                    lemma_told_all(before, event@.from, texts);
                } else {
                    let n = choose|n: int|
                        0 <= n < texts.len() && after == #[trigger] before.told_all(
                            event@.from,
                            texts.take(n),
                        ).told(Some(event@.from), MessageView::AdminMessage(texts[n]), false);
                    lemma_told_all(before, event@.from, texts.take(n));
                }
            }
        },
        _ => {},
    }
}

/// Telling a channel several texts adds just those, in order.
proof fn lemma_told_all(before: SlackGatewayView, to: ChannelHandle, texts: Seq<Seq<char>>)
    ensures
        ({
            let after = before.told_all(to, texts);
            &&& after == SlackGatewayView { hub_tx: after.hub_tx, ..before }
            &&& after.hub_tx == ChannelView { accepted: after.hub_tx.accepted, ..before.hub_tx }
            &&& after.hub_tx.accepted == before.hub_tx.accepted + texts.map_values(
                |text: Seq<char>|
                    EventView {
                        from: before.handle,
                        to: Some(to),
                        message: MessageView::AdminMessage(text),
                    },
            )
        }),
    decreases texts.len(),
{
    let f = |text: Seq<char>|
        EventView {
            from: before.handle,
            to: Some(to),
            message: MessageView::AdminMessage(text),
        };
    if texts.len() > 0 {
        lemma_told_all(before, to, texts.drop_last());
        assert(texts.map_values(f) =~= texts.drop_last().map_values(f).push(f(texts.last())));
    }
    assert(before.told_all(to, texts).hub_tx.accepted =~= before.hub_tx.accepted
        + texts.map_values(f));
}

/// A token that Slack grants is kept: from then on the Slack client is started
/// with it, unless it is running already.
pub proof fn law_granted_token_is_used(
    before: SlackGatewayView,
    from: ChannelHandle,
    token: String,
    res: Result<Option<Action>, Error>,
    after: SlackGatewayView,
    start: Result<String, SlackError>,
)
    requires
        is_handled(before, Input::Registered(from, AccessReply::Granted(Some(token))), res, after),
        is_start(after.started, after.hub.settings.token->0, start),
    ensures
        res == Ok::<Option<Action>, Error>(Some(Action::Save(token))),
        after.hub.settings.token == Some(token@),
        after.hub == with_token(before.hub, token@),
        before.started ==> start == Err::<String, SlackError>(SlackError::AlreadyStarted),
        !before.started ==> (start matches Ok(login) && login@ == token@),
{
}

/// The Slack gateway from one input to the next.
pub open spec fn is_slack_history(
    states: Seq<SlackGatewayView>,
    inputs: Seq<Input>,
    results: Seq<Result<Option<Action>, Error>>,
) -> bool {
    &&& states.len() == inputs.len() + 1
    &&& results.len() == inputs.len()
    &&& forall|i: int|
        0 <= i < inputs.len() ==> is_handled(
            states[i],
            #[trigger] inputs[i],
            results[i],
            states[i + 1],
        )
}

/// A Slack client that is running goes on running.
proof fn lemma_started(
    states: Seq<SlackGatewayView>,
    inputs: Seq<Input>,
    results: Seq<Result<Option<Action>, Error>>,
    i: int,
    j: int,
)
    requires
        is_slack_history(states, inputs, results),
        0 <= i <= j < states.len(),
        states[i].started,
    ensures
        states[j].started,
    decreases j - i,
{
    if i < j {
        lemma_started(states, inputs, results, i, j - 1);
        assert(is_handled(states[j - 1], inputs[j - 1], results[j - 1], states[j]));
        law_slack_gateway_keeps(states[j - 1], inputs[j - 1], results[j - 1], states[j]);
    }
}

/// The Slack client is running because it was, or has logged in since.
proof fn lemma_running(
    states: Seq<SlackGatewayView>,
    inputs: Seq<Input>,
    results: Seq<Result<Option<Action>, Error>>,
    j: int,
)
    requires
        is_slack_history(states, inputs, results),
        0 <= j < states.len(),
    ensures
        states[j].started <==> states[0].started || exists|i: int|
            0 <= i < j && is_successful_login(#[trigger] inputs[i]),
    decreases j,
{
    if j > 0 {
        lemma_running(states, inputs, results, j - 1);
        assert(is_handled(states[j - 1], inputs[j - 1], results[j - 1], states[j]));
        law_slack_gateway_keeps(states[j - 1], inputs[j - 1], results[j - 1], states[j]);
    }
}

/// The Slack client is started once: while it is running every wish to start it
/// again is refused, and none is asked for, whatever has happened since it was
/// started, and in whichever way.
pub proof fn law_slack_starts_once(
    states: Seq<SlackGatewayView>,
    inputs: Seq<Input>,
    results: Seq<Result<Option<Action>, Error>>,
    i: int,
    j: int,
    token: Seq<char>,
    start: Result<String, SlackError>,
)
    requires
        is_slack_history(states, inputs, results),
        0 <= i <= j < states.len(),
        states[i].started,
        is_start(states[j].started, token, start),
    ensures
        states[j].started,
        start == Err::<String, SlackError>(SlackError::AlreadyStarted),
        j < inputs.len() ==> !(results[j] matches Ok(Some(Action::LogIn(_)))),
{
    lemma_started(states, inputs, results, i, j);
    if j < inputs.len() {
        assert(is_handled(states[j], inputs[j], results[j], states[j + 1]));
    }
}

/// The Slack client is running if it was at the beginning or has logged in
/// since, and in no other case. Until then it can be started with any token, so
/// that a login which failed can be tried again.
pub proof fn law_slack_runs_after_login(
    states: Seq<SlackGatewayView>,
    inputs: Seq<Input>,
    results: Seq<Result<Option<Action>, Error>>,
    j: int,
    token: Seq<char>,
    start: Result<String, SlackError>,
)
    requires
        is_slack_history(states, inputs, results),
        0 <= j < states.len(),
        is_start(states[j].started, token, start),
    ensures
        states[j].started <==> states[0].started || exists|i: int|
            0 <= i < j && is_successful_login(#[trigger] inputs[i]),
        !states[j].started ==> (start matches Ok(login) && login@ == token),
        j < inputs.len() && !states[j].started ==> (inputs[j] matches Input::Saved(new) ==> (
        results[j] matches Ok(Some(Action::LogIn(login))) && login@ == new@)),
{
    lemma_running(states, inputs, results, j);
    if j < inputs.len() {
        assert(is_handled(states[j], inputs[j], results[j], states[j + 1]));
    }
}

} // verus!
