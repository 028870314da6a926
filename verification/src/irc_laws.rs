//! What an IRC connection does for its client.

use crate::account::{AuthenticationInfoView, HubInfo};
use crate::hub::{ChannelSender, Error as HubError, Event, EventView, Message, MessageView};
use crate::hub_laws::{got_just, lemma_turned_down, turned_down};
use crate::hub_manager::{HubManagerView, Lookup};
use crate::irc_gateway::{
    greeting, hub_reply, is_conversation, is_login, is_membership, login_after,
    AuthenticationView, Error, IrcGatewayView, Membership, Received,
};
use crate::irc_line::{
    arguments, as_last, fields, first_line, is_line_break, is_read, is_received, line_end, marked,
    parsed, rendered, spaced, written,
};
use crate::irc_message::{
    message_views, pong, privmsg, rpl, with_message, Command, CommandView, IrcMessage,
    IrcMessageView, IrcWriter, Response,
};
use crate::irc_session::{
    fits, is_step, new_session, SessionAction, SessionInput, SessionView, StageView,
};
use crate::laws::{
    is_last_nick, is_last_pass, law_last_argument_arrives, law_last_word_counts,
    law_login_is_unambiguous,
};
use crate::password::verification;
use crate::settings::SettingsView;
use crate::text::{split_words, views};
use vstd::prelude::*;

verus! {

/// Just one message, from `from` to `to` with this text.
pub open spec fn is_one_privmsg(
    messages: Seq<IrcMessage>,
    from: Seq<char>,
    to: Seq<char>,
    text: Seq<char>,
) -> bool {
    &&& messages.len() == 1
    &&& messages[0].prefix matches Some(prefix) && prefix@ == from
    &&& messages[0].command matches Command::PRIVMSG(recipient, said) && recipient@ == to && said@
        == text
}

proof fn lemma_one_message(messages: Seq<IrcMessage>, message: IrcMessageView)
    requires
        message_views(messages) == with_message(Seq::empty(), Some(message)),
    ensures
        messages.len() == 1,
        messages[0]@ == message,
{
    assert(message_views(messages).len() == messages.len());
    assert(message_views(messages)[0] == messages[0]@);
}

/// What a client is told of an event of its hub, all of it and nothing else: what
/// somebody wrote at Slack, with the whole text; what the gateway says to the
/// user, from the gateway to the user, with the whole text; and errors likewise,
/// named as such. Nothing is told of any other event. The conversation goes on as
/// it was.
pub proof fn law_client_is_told_whole(
    before: SessionView,
    gateway: IrcGatewayView,
    hubs: HubManagerView,
    event: Event,
    action: SessionAction,
    after: SessionView,
    hubs_after: HubManagerView,
)
    requires
        before.stage matches StageView::Talking { gateway: g, .. } && g == gateway,
        is_step(before, hubs, SessionInput::Hub(event), action, after, hubs_after),
    ensures
        after.stage == before.stage,
        hubs_after == hubs,
        action matches SessionAction::Write(messages) && match event.message {
            Message::Message(_, _, text) => is_one_privmsg(
                messages@,
                "isra"@,
                "#general"@,
                text@,
            ),
            Message::AdminMessage(text) => is_one_privmsg(
                messages@,
                gateway.botnick,
                gateway.nick,
                text@,
            ),
            Message::Error(text) => is_one_privmsg(
                messages@,
                gateway.botnick,
                gateway.nick,
                "ERROR: "@ + text@,
            ),
            _ => messages@.len() == 0,
        },
{
    let messages = action->Write_0;
    assert(message_views(messages@).len() == messages@.len());
    match hub_reply(gateway.nick, gateway.botnick, event@.message) {
        Some(reply) => lemma_one_message(messages@, reply),
        None => {},
    }
}

/// What is added to what a client has been told, for a message of the hub.
pub proof fn law_reply_is_whole(
    told: Seq<IrcMessageView>,
    nick: Seq<char>,
    botnick: Seq<char>,
    message: Message,
)
    ensures
        ({
            let after = with_message(told, hub_reply(nick, botnick, message@));
            match message {
                Message::Message(_, _, text) => after == told + seq![
                    IrcMessageView {
                        prefix: Some("isra"@),
                        command: CommandView::PRIVMSG("#general"@, text@),
                    },
                ],
                Message::AdminMessage(text) => after == told + seq![
                    IrcMessageView {
                        prefix: Some(botnick),
                        command: CommandView::PRIVMSG(nick, text@),
                    },
                ],
                Message::Error(text) => after == told + seq![
                    IrcMessageView {
                        prefix: Some(botnick),
                        command: CommandView::PRIVMSG(nick, "ERROR: "@ + text@),
                    },
                ],
                _ => after == told,
            }
        }),
{
    let after = with_message(told, hub_reply(nick, botnick, message@));
    if after.len() > told.len() {
        assert(after =~= told + seq![after.last()]);
    }
}

/// A message is shown whole.
pub proof fn law_message_is_shown_whole(message: IrcMessage)
    ensures
        message.prefix matches Some(prefix) ==> message@.prefix == Some(prefix@),
        message.prefix is None ==> message@.prefix is None,
        match message.command {
            Command::PASS(pass) => message@.command == CommandView::PASS(pass@),
            Command::NICK(nick) => message@.command == CommandView::NICK(nick@),
            Command::PRIVMSG(to, text) => message@.command == CommandView::PRIVMSG(to@, text@),
            Command::PING(a, Some(b)) => message@.command == CommandView::PING(a@, Some(b@)),
            Command::PING(a, None) => message@.command == CommandView::PING(a@, None),
            Command::PONG(a, Some(b)) => message@.command == CommandView::PONG(a@, Some(b@)),
            Command::PONG(a, None) => message@.command == CommandView::PONG(a@, None),
            Command::Response(response, args) => {
                &&& message@.command matches CommandView::Response(r, a)
                &&& r == response
                &&& a.len() == args@.len()
                &&& forall|i: int| 0 <= i < a.len() ==> #[trigger] a[i] == args@[i]@
            },
            Command::Other => message@.command is Other,
        },
{
}

/// What is written is what was given to be written, part by part.
pub proof fn law_writer_keeps_parts(
    from: Seq<char>,
    to: Seq<char>,
    text: Seq<char>,
    response: Response,
    args: Seq<Seq<char>>,
    command: CommandView,
)
    ensures
        privmsg(from, to, text).prefix == Some(from),
        privmsg(from, to, text).command == CommandView::PRIVMSG(to, text),
        rpl(from, response, args).prefix == Some(from),
        rpl(from, response, args).command == CommandView::Response(response, args),
        command matches CommandView::PING(a, b) ==> (pong(command) matches Some(answer)
            && answer.prefix is None && answer.command == CommandView::PONG(a, b)),
        !(command is PING) ==> pong(command) is None,
{
}

/// The text is that of a command to the gateway: it has a word in it. `event` is
/// what the hub is to be given, from this conversation, for everybody.
pub open spec fn is_command_event(
    gateway: IrcGatewayView,
    text: Seq<char>,
    event: EventView,
) -> bool {
    &&& event.from == gateway.handle
    &&& event.to is None
    &&& event.message matches MessageView::AdminCommand(command, args)
    &&& seq![command] + args == split_words(text)
}

/// What comes of what a client says: what it says to the gateway is given to the
/// hub word by word, once, or the connection ends because the hub did not take
/// just that; what it says to anybody else, or without a word, is given to
/// nobody. Nothing is written for it.
pub proof fn law_only_the_bot_is_commanded(
    before: SessionView,
    gateway: IrcGatewayView,
    hubs: HubManagerView,
    message: IrcMessage,
    to: String,
    text: String,
    action: SessionAction,
    after: SessionView,
    hubs_after: HubManagerView,
)
    requires
        before.stage matches StageView::Talking { gateway: g, .. } && g == gateway,
        message.command == Command::PRIVMSG(to, text),
        is_step(
            before,
            hubs,
            SessionInput::Client(Received::Message(message)),
            action,
            after,
            hubs_after,
        ),
    ensures
        hubs_after == hubs,
        to@ != gateway.botnick || split_words(text@).len() == 0 ==> {
            &&& after.stage == before.stage
            &&& action matches SessionAction::Write(messages)
            &&& messages@.len() == 0
        },
        to@ == gateway.botnick && split_words(text@).len() > 0 ==> exists|event: EventView|
            {
                &&& #[trigger] is_command_event(gateway, text@, event)
                &&& match action {
                    SessionAction::CommandLost(e) => {
                        &&& e is SendError
                        &&& turned_down(gateway.hub_tx, event)
                        &&& after.stage is Ended
                    },
                    SessionAction::Write(messages) => {
                        &&& messages@.len() == 0
                        &&& after.stage matches StageView::Talking { gateway: g, .. }
                        &&& got_just(gateway.hub_tx, event, g.hub_tx)
                        &&& g.nick == gateway.nick
                        &&& g.botnick == gateway.botnick
                        &&& g.handle == gateway.handle
                    },
                    _ => false,
                }
            },
{
    if let SessionAction::Write(messages) = action {
        assert(message_views(messages@).len() == messages@.len());
    }
    let list = split_words(text@);
    if to@ == gateway.botnick && list.len() > 0 {
        let event = EventView {
            from: gateway.handle,
            to: None,
            message: MessageView::AdminCommand(list[0], list.drop_first()),
        };
        assert(seq![list[0]] + list.drop_first() =~= list);
        assert(is_command_event(gateway, text@, event));
        if action is CommandLost {
            lemma_turned_down(gateway.hub_tx, event);
        } else {
            assert(gateway.hub_tx.accepted.push(event) =~= gateway.hub_tx.accepted + seq![event]);
        }
    }
}

/// The same of a conversation by itself: what is said to anybody but the gateway
/// leaves it as it was, and what is said to the gateway goes to the hub once.
pub proof fn law_conversation_commands_the_bot_only(
    before: IrcGatewayView,
    told: Seq<IrcMessageView>,
    message: IrcMessage,
    to: String,
    text: String,
    res: Result<IrcWriter, HubError>,
    after: IrcGatewayView,
)
    requires
        message.command == Command::PRIVMSG(to, text),
        is_conversation(before, told, message@, res, after),
    ensures
        res matches Ok(writer) ==> writer@ == told,
        to@ != before.botnick || split_words(text@).len() == 0 ==> res is Ok && after == before,
        to@ == before.botnick && split_words(text@).len() > 0 ==> exists|event: EventView|
            {
                &&& #[trigger] is_command_event(before, text@, event)
                &&& res is Ok ==> got_just(before.hub_tx, event, after.hub_tx)
                &&& res matches Err(e) ==> e is SendError && turned_down(before.hub_tx, event)
            },
        after.nick == before.nick,
        after.botnick == before.botnick,
        after.handle == before.handle,
{
    let list = split_words(text@);
    if to@ == before.botnick && list.len() > 0 {
        let event = EventView {
            from: before.handle,
            to: None,
            message: MessageView::AdminCommand(list[0], list.drop_first()),
        };
        assert(seq![list[0]] + list.drop_first() =~= list);
        assert(is_command_event(before, text@, event));
        if res is Err {
            lemma_turned_down(before.hub_tx, event);
        } else {
            assert(before.hub_tx.accepted.push(event) =~= before.hub_tx.accepted + seq![event]);
        }
    }
}

/// What comes of anything else that a client sends: a PING is answered with a
/// PONG for the same servers, and nothing else is answered; the hub is given
/// nothing, and the conversation goes on.
pub proof fn law_ping_is_answered(
    before: SessionView,
    gateway: IrcGatewayView,
    hubs: HubManagerView,
    message: IrcMessage,
    action: SessionAction,
    after: SessionView,
    hubs_after: HubManagerView,
)
    requires
        before.stage matches StageView::Talking { gateway: g, .. } && g == gateway,
        !(message.command is PRIVMSG),
        is_step(
            before,
            hubs,
            SessionInput::Client(Received::Message(message)),
            action,
            after,
            hubs_after,
        ),
    ensures
        after.stage == before.stage,
        hubs_after == hubs,
        action matches SessionAction::Write(messages) && match message.command {
            Command::PING(server1, server2) => {
                &&& messages@.len() == 1
                &&& messages@[0].prefix is None
                &&& messages@[0].command matches Command::PONG(answer1, answer2)
                &&& answer1@ == server1@
                &&& answer2 is Some == server2 is Some
                &&& server2 is Some ==> answer2->0@ == server2->0@
            },
            _ => messages@.len() == 0,
        },
{
    let messages = action->Write_0;
    assert(message_views(messages@).len() == messages@.len());
    match pong(message@.command) {
        Some(reply) => lemma_one_message(messages@, reply),
        None => {},
    }
}

/// The same of a conversation by itself.
pub proof fn law_conversation_answers_ping(
    before: IrcGatewayView,
    told: Seq<IrcMessageView>,
    message: IrcMessage,
    res: Result<IrcWriter, HubError>,
    after: IrcGatewayView,
)
    requires
        !(message.command is PRIVMSG),
        is_conversation(before, told, message@, res, after),
    ensures
        after == before,
        res matches Ok(writer) && match message@.command {
            CommandView::PING(server1, server2) => writer@ == told + seq![
                IrcMessageView { prefix: None, command: CommandView::PONG(server1, server2) },
            ],
            _ => writer@ == told,
        },
{
    let writer = res->Ok_0;
    if writer@.len() > told.len() {
        assert(writer@ =~= told + seq![writer@.last()]);
    }
}

/// A conversation does not mind a client that cannot be understood or a hub that
/// cannot be listened to, and it ends once neither of them says anything more.
pub proof fn law_conversation_ends_with_both(
    before: SessionView,
    gateway: IrcGatewayView,
    client_gone: bool,
    hub_gone: bool,
    hubs: HubManagerView,
    input: SessionInput,
    action: SessionAction,
    after: SessionView,
    hubs_after: HubManagerView,
)
    requires
        before.stage == (StageView::Talking { gateway, client_gone, hub_gone }),
        is_step(before, hubs, input, action, after, hubs_after),
        input matches SessionInput::Client(received) ==> !(received is Message),
        !(input is Hub),
        before.expects(input),
    ensures
        hubs_after == hubs,
        match input {
            SessionInput::Client(Received::Closed) => if hub_gone {
                action is Finish && after.stage is Ended
            } else {
                action is Wait && after.stage == (StageView::Talking {
                    gateway,
                    client_gone: true,
                    hub_gone: false,
                })
            },
            SessionInput::HubEnded => if client_gone {
                action is Finish && after.stage is Ended
            } else {
                action is Wait && after.stage == (StageView::Talking {
                    gateway,
                    client_gone: false,
                    hub_gone: true,
                })
            },
            _ => {
                &&& action matches SessionAction::Write(messages) && messages@.len() == 0
                &&& after.stage == before.stage
            },
        },
{
    if let SessionAction::Write(messages) = action {
        assert(message_views(messages@).len() == messages@.len());
    }
}

/// How a client logs in: as soon as it has sent a NICK and a PASS it is looked up
/// under the nick that it gave last, and the workspace in front of the first dot
/// of the password that it gave last; what follows that dot is the password. A
/// password without a dot is refused. Until both have come it is waited for.
pub proof fn law_login_is_exact(
    messages: Seq<IrcMessageView>,
    last: IrcMessage,
    before: SessionView,
    hubs: HubManagerView,
    action: SessionAction,
    after: SessionView,
    hubs_after: HubManagerView,
    nick: Seq<char>,
    i: int,
    pass: Seq<char>,
    k: int,
    auth: AuthenticationInfoView,
)
    requires
        before.stage == StageView::LoggingIn(login_after(messages)),
        is_step(
            before,
            hubs,
            SessionInput::Client(Received::Message(last)),
            action,
            after,
            hubs_after,
        ),
    ensures
        hubs_after == hubs,
        ({
            let all = messages.push(last@);
            &&& (forall|j: int| 0 <= j < all.len() ==> !((#[trigger] all[j]).command is NICK)) || (
            forall|j: int| 0 <= j < all.len() ==> !((#[trigger] all[j]).command is PASS)) ==> {
                &&& action is Wait
                &&& after.stage == StageView::LoggingIn(login_after(all))
            }
            &&& is_last_nick(all, nick, i) && is_last_pass(all, pass, k) && !pass.contains('.')
                ==> {
                &&& action == SessionAction::Stop(Error::InvalidPassword)
                &&& after.stage is Ended
            }
            &&& is_last_nick(all, nick, i) && is_last_pass(all, pass, k) && auth.nick == nick
                && pass == auth.workspace + seq!['.'] + auth.pass && !auth.workspace.contains('.')
                ==> {
                &&& action matches SessionAction::Find(workspace, name)
                &&& workspace@ == auth.workspace
                &&& name@ == nick
                &&& after.stage matches StageView::LookingUp { auth: found, lookup, .. }
                &&& found == auth
                &&& lookup is First
            }
        }),
{
    let all = messages.push(last@);
    assert(all.drop_last() =~= messages);
    let next = login_after(all);
    law_last_word_counts(all, nick, pass);
    if next.builder.nick is Some {
        law_last_word_counts(all, next.builder.nick->0, pass);
    }
    if next.builder.pass is Some {
        law_last_word_counts(all, nick, next.builder.pass->0);
    }
    if is_last_nick(all, nick, i) && is_last_pass(all, pass, k) && auth.nick == nick && pass
        == auth.workspace + seq!['.'] + auth.pass && !auth.workspace.contains('.') {
        assert(pass[auth.workspace.len() as int] == '.');
        assert(is_login(nick, pass, auth));
        if let StageView::LookingUp { auth: found, .. } = after.stage {
            law_login_is_unambiguous(nick, pass, auth, found);
        }
    }
}

/// A client that goes away, or cannot be understood, before it has logged in is
/// not served, for that reason.
pub proof fn law_login_can_break_off(
    before: SessionView,
    hubs: HubManagerView,
    received: Received,
    action: SessionAction,
    after: SessionView,
    hubs_after: HubManagerView,
)
    requires
        before.stage is LoggingIn,
        !(received is Message),
        is_step(before, hubs, SessionInput::Client(received), action, after, hubs_after),
    ensures
        hubs_after == hubs,
        after.stage is Ended,
        received is Closed ==> action == SessionAction::Stop(Error::ConnectionLost),
        received matches Received::Failed(reason) ==> (action matches SessionAction::Stop(
            Error::IrcError(text),
        ) && text@ == reason@),
{
}

/// What comes of looking up the account of a client. With the password that was
/// hashed for the account it joins the hub of that account; with any other it is
/// sent away; without an account it is to get one. What it has sent so far, and
/// who it is, stays.
pub proof fn law_lookup_decides(
    before: SessionView,
    auth: AuthenticationInfoView,
    buffered: Seq<IrcMessageView>,
    lookup: Lookup,
    hubs: HubManagerView,
    found: Option<HubInfo>,
    action: SessionAction,
    after: SessionView,
    hubs_after: HubManagerView,
)
    requires
        before.stage == (StageView::LookingUp { auth, buffered, lookup }),
        is_step(before, hubs, SessionInput::Found(found), action, after, hubs_after),
    ensures
        match found {
            Some(info) => if verification(auth.pass, info.settings.pass@) == Some(true) {
                &&& action matches SessionAction::Open(connection, hub_rx)
                &&& connection.hub == info.id
                &&& after.stage matches StageView::Joined { nick, buffered: kept, hub_tx }
                &&& nick == auth.nick
                &&& kept == buffered
                &&& is_membership(
                    hubs,
                    info@,
                    Membership { connection, hub_tx, hub_rx },
                    hubs_after,
                )
            } else {
                &&& action == SessionAction::Stop(Error::HubError(HubError::WrongPassword))
                &&& after.stage is Ended
                &&& hubs_after == hubs
            },
            None => {
                &&& hubs_after == hubs
                &&& match action {
                    SessionAction::Insert(info) => {
                        &&& info.workspace@ == auth.workspace
                        &&& info.nick@ == auth.nick
                        &&& info.settings.token is None
                        &&& verification(auth.pass, info.settings.pass@) == Some(true)
                        &&& after.stage == (StageView::LookingUp {
                            auth,
                            buffered,
                            lookup: Lookup::AfterInsert,
                        })
                    },
                    SessionAction::HashFailed(e) => {
                        &&& e.is_nul() ==> auth.pass.contains('\0')
                        &&& after.stage is Ended
                    },
                    _ => false,
                }
            },
        },
{
}

/// A reply of the server `host` with this number and these arguments.
pub open spec fn is_reply(
    message: IrcMessage,
    host: Seq<char>,
    number: Response,
    args: Seq<Seq<char>>,
) -> bool {
    &&& message.prefix matches Some(prefix) && prefix@ == host
    &&& message.command matches Command::Response(response, arguments)
    &&& response == number
    &&& arguments@.len() == args.len()
    &&& forall|i: int| 0 <= i < args.len() ==> (#[trigger] arguments@[i])@ == args[i]
}

/// What a client is greeted with: five replies of the server under its own name,
/// which tell the client its nick, the name of the server and what it runs. The
/// client then talks under the nick that it logged in with to the gateway that
/// has the name in the settings, through the channel that it joined by, and
/// whatever it has sent before is handled first.
pub proof fn law_greeting_is_exact(
    before: SessionView,
    nick: Seq<char>,
    buffered: Seq<IrcMessageView>,
    hub_tx: ChannelSender,
    hubs: HubManagerView,
    host: Seq<char>,
    botnick: Seq<char>,
    action: SessionAction,
    after: SessionView,
    hubs_after: HubManagerView,
)
    requires
        before.stage == (StageView::Joined { nick, buffered, hub_tx }),
        before.settings.irc_host == Some(host),
        before.settings.irc_botnick == Some(botnick),
        is_step(before, hubs, SessionInput::Opened, action, after, hubs_after),
    ensures
        hubs_after == hubs,
        action matches SessionAction::Greet(told, rest) && {
            &&& message_views(rest@) == buffered
            &&& told@.len() == 5
            &&& is_reply(
                told@[0],
                host,
                Response::RPL_WELCOME,
                seq![nick, ":Welcome to the Internet Relay Network"@],
            )
            &&& is_reply(
                told@[1],
                host,
                Response::RPL_YOURHOST,
                seq![nick, ":Your host is "@ + host + ", running version slack-irc-rs-0.1"@],
            )
            &&& is_reply(
                told@[2],
                host,
                Response::RPL_CREATED,
                seq![nick, ":This server was created sometime"@],
            )
            &&& is_reply(
                told@[3],
                host,
                Response::RPL_MYINFO,
                seq![nick, host, "slack-irc-rs-0.1"@, "o"@, "o"@],
            )
            &&& is_reply(told@[4], host, Response::ERR_NOMOTD, seq!["MOTD File is missing"@])
        },
        after.stage == (StageView::Talking {
            gateway: IrcGatewayView {
                nick,
                botnick,
                handle: hub_tx.id(),
                hub_tx: hub_tx@,
            },
            client_gone: false,
            hub_gone: false,
        }),
{
    let told = action->Greet_0;
    let all = greeting(host, nick);
    assert(message_views(told@).len() == told@.len());
    assert forall|i: int| 0 <= i < 5 implies (#[trigger] told@[i])@ == all[i] by {
        assert(message_views(told@)[i] == told@[i]@);
    }
    assert forall|i: int| 0 <= i < 5 implies is_reply(
        #[trigger] told@[i],
        host,
        all[i].command->Response_0,
        all[i].command->Response_1,
    ) by {
        assert(told@[i]@ == all[i]);
        let args = told@[i].command->Response_1;
        assert(views(args@) == all[i].command->Response_1);
        assert forall|j: int| 0 <= j < args@.len() implies (#[trigger] args@[j])@
            == all[i].command->Response_1[j] by {
            assert(views(args@)[j] == args@[j]@);
        }
    }
    assert(is_reply(
        told@[0],
        host,
        all[0].command->Response_0,
        all[0].command->Response_1,
    ));
}

/// A connection keeps the settings that it began with.
pub proof fn law_connection_keeps_settings(
    before: SessionView,
    hubs: HubManagerView,
    input: SessionInput,
    action: SessionAction,
    after: SessionView,
    hubs_after: HubManagerView,
)
    requires
        is_step(before, hubs, input, action, after, hubs_after),
    ensures
        after.settings == before.settings,
{
}

/// When a connection can go on: at each stage with what belongs to it, and with
/// what the settings have to say for the greeting.
pub proof fn law_what_a_connection_expects(session: SessionView, input: SessionInput)
    ensures
        match session.stage {
            StageView::LoggingIn(_) => session.expects(input) <==> input is Client,
            StageView::LookingUp { lookup: Lookup::First, .. } => session.expects(input)
                <==> input is Found,
            StageView::LookingUp { lookup: Lookup::AfterInsert, .. } => session.expects(input)
                <==> (input matches SessionInput::Found(found) && found is Some),
            StageView::Joined { .. } => session.expects(input) <==> input is Opened
                && session.settings.irc_host is Some && session.settings.irc_botnick is Some,
            StageView::Talking { .. } => session.expects(input) <==> !(input is Found || input
                is Opened),
            StageView::Ended => !session.expects(input),
        },
{
}

/// A hub has room for a client unless its last handle is in use.
pub proof fn law_hubs_have_room(hubs: HubManagerView, input: SessionInput)
    ensures
        fits(hubs, input) <==> !(input matches SessionInput::Found(Some(info)) && hubs.hubs.contains_key(
            info.id,
        ) && hubs.hubs[info.id].channels.contains_key(usize::MAX)),
{
}

/// The word that a command is known by on the wire.
pub open spec fn is_word_of(command: CommandView, word: Seq<char>) -> bool {
    match command {
        CommandView::PASS(_) => word == "PASS"@,
        CommandView::NICK(_) => word == "NICK"@,
        CommandView::PRIVMSG(_, _) => word == "PRIVMSG"@,
        CommandView::PING(_, _) => word == "PING"@,
        CommandView::PONG(_, _) => word == "PONG"@,
        CommandView::Response(Response::RPL_WELCOME, _) => word == "001"@,
        CommandView::Response(Response::RPL_YOURHOST, _) => word == "002"@,
        CommandView::Response(Response::RPL_CREATED, _) => word == "003"@,
        CommandView::Response(Response::RPL_MYINFO, _) => word == "004"@,
        CommandView::Response(Response::ERR_NOMOTD, _) => word == "422"@,
        CommandView::Other => false,
    }
}

/// The arguments of a command: those in front, and the last, which is free text.
/// The last of a reply may be marked with a colon already.
pub open spec fn are_arguments_of(
    command: CommandView,
    front: Seq<Seq<char>>,
    text: Seq<char>,
) -> bool {
    match command {
        CommandView::PASS(a) => front.len() == 0 && text == a,
        CommandView::NICK(a) => front.len() == 0 && text == a,
        CommandView::PRIVMSG(to, a) => front == seq![to] && text == a,
        CommandView::PING(a, None) => front.len() == 0 && text == a,
        CommandView::PING(a, Some(b)) => front == seq![a] && text == b,
        CommandView::PONG(a, None) => front.len() == 0 && text == a,
        CommandView::PONG(a, Some(b)) => front == seq![a] && text == b,
        CommandView::Response(_, args) => {
            &&& args.len() == front.len() + 1
            &&& args.drop_last() == front
            &&& args.last() == seq![':'] + text || (args.last() == text && !(text.len() > 0
                && text[0] == ':'))
        },
        CommandView::Other => false,
    }
}

/// No line break.
pub open spec fn is_unbroken(text: Seq<char>) -> bool {
    forall|i: int| 0 <= i < text.len() ==> !is_line_break(#[trigger] text[i])
}

/// Each of these after a space.
pub open spec fn each_after_space(args: Seq<Seq<char>>) -> Seq<char>
    decreases args.len(),
{
    if args.len() == 0 {
        Seq::empty()
    } else {
        each_after_space(args.drop_last()) + seq![' '] + args.last()
    }
}

/// `text` as the last argument on the wire: behind a colon, or as a word that
/// cannot be mistaken for something behind a colon.
pub open spec fn is_on_wire(text: Seq<char>, wire: Seq<char>) -> bool {
    ||| wire == seq![':'] + text
    ||| wire == text && text.len() > 0 && text[0] != ':' && !text.contains(' ')
}

/// A sender in front of a line: its name between a colon and a space.
pub open spec fn is_origin(prefix: Option<Seq<char>>, origin: Seq<char>) -> bool {
    match prefix {
        Some(name) => origin == seq![':'] + name + seq![' '],
        None => origin.len() == 0,
    }
}

/// What came from a client is what its line means, or why it means nothing.
pub proof fn law_line_is_taken_at_its_word(
    line: Seq<char>,
    outcome: Result<IrcMessage, String>,
    res: Received,
)
    ensures
        is_read(line, res) ==> {
            &&& !(res is Closed)
            &&& res matches Received::Message(message) ==> parsed(line) == Ok::<
                IrcMessageView,
                Seq<char>,
            >(message@)
            &&& res matches Received::Failed(reason) ==> parsed(line) == Err::<
                IrcMessageView,
                Seq<char>,
            >(reason@)
        },
        is_received(outcome, res) ==> match outcome {
            Ok(message) => res matches Received::Message(m) && m == message,
            Err(reason) => res matches Received::Failed(r) && r == reason,
        },
{
}

/// On a connection that has just been made the client has said nothing, and there
/// is nothing to be handled later.
pub proof fn law_connection_begins_blank(settings: SettingsView)
    ensures
        new_session(settings).settings == settings,
        new_session(settings).stage == StageView::LoggingIn(login_after(Seq::empty())),
        login_after(Seq::empty()).builder.nick is None,
        login_after(Seq::empty()).builder.pass is None,
        login_after(Seq::empty()).buffered.len() == 0,
        AuthenticationView::start() == login_after(Seq::empty()),
{
}

/// Where the first line ends.
proof fn lemma_line_end_at(s: Seq<char>, n: int)
    requires
        0 <= n < s.len(),
        forall|i: int| 0 <= i < n ==> !is_line_break(#[trigger] s[i]),
        is_line_break(s[n]),
    ensures
        line_end(s) == n,
    decreases n,
{
    if n > 0 {
        let rest = s.drop_first();
        assert forall|i: int| 0 <= i < n - 1 implies !is_line_break(#[trigger] rest[i]) by {
            assert(rest[i] == s[i + 1]);
        }
        assert(!is_line_break(s[0]));
        lemma_line_end_at(rest, n - 1);
    }
}

/// The first line does not end before the first line break.
proof fn lemma_line_end_after(s: Seq<char>, n: int)
    requires
        0 <= n <= s.len(),
        forall|i: int| 0 <= i < n ==> !is_line_break(#[trigger] s[i]),
    ensures
        line_end(s) >= n,
    decreases n,
{
    if n > 0 {
        let rest = s.drop_first();
        assert forall|i: int| 0 <= i < n - 1 implies !is_line_break(#[trigger] rest[i]) by {
            assert(rest[i] == s[i + 1]);
        }
        assert(!is_line_break(s[0]));
        lemma_line_end_after(rest, n - 1);
    }
}

/// No word of a command has a line break in it.
proof fn lemma_words_are_unbroken(command: CommandView, word: Seq<char>)
    requires
        is_word_of(command, word),
    ensures
        is_unbroken(word),
{
    reveal_strlit("PASS");
    reveal_strlit("NICK");
    reveal_strlit("PRIVMSG");
    reveal_strlit("PING");
    reveal_strlit("PONG");
    reveal_strlit("001");
    reveal_strlit("002");
    reveal_strlit("003");
    reveal_strlit("004");
    reveal_strlit("422");
}

/// A line begins with who says it, if there is somebody, and then with what kind
/// of message it is. Every command but those that the gateway has no use for can
/// be written.
pub proof fn law_line_begins_with_sender(
    message: IrcMessageView,
    origin: Seq<char>,
    word: Seq<char>,
)
    requires
        is_origin(message.prefix, origin),
        is_unbroken(origin),
    ensures
        written(message) is None <==> message.command is Other,
        is_word_of(message.command, word) ==> (written(message) matches Some(line) && (origin
            + word).is_prefix_of(line)),
{
    if is_word_of(message.command, word) {
        let (command, args) = fields(message.command)->0;
        let text = rendered(message.prefix, command, args);
        let start = origin + word;
        lemma_words_are_unbroken(message.command, word);
        assert(text =~= start + arguments(args) + seq!['\r', '\n']);
        assert forall|i: int| 0 <= i < start.len() implies !is_line_break(#[trigger] text[i]) by {
            if i < origin.len() {
                assert(text[i] == origin[i]);
            } else {
                assert(text[i] == word[i - origin.len()]);
            }
        }
        lemma_line_end_after(text, start.len() as int);
        assert(start =~= first_line(text).take(start.len() as int));
    }
}

/// Spaces between, or a space in front of each.
proof fn lemma_spaced(args: Seq<Seq<char>>)
    requires
        forall|i: int| 0 <= i < args.len() ==> (#[trigger] args[i]).len() > 0,
    ensures
        args.len() == 0 ==> spaced(args).len() == 0 && each_after_space(args).len() == 0,
        args.len() > 0 ==> spaced(args).len() > 0 && each_after_space(args) == seq![' '] + spaced(
            args,
        ),
    decreases args.len(),
{
    if args.len() > 0 {
        let front = args.drop_last();
        assert forall|i: int| 0 <= i < front.len() implies (#[trigger] front[i]).len() > 0 by {
            assert(front[i] == args[i]);
        }
        lemma_spaced(front);
        assert(args.last() == args[args.len() - 1]);
        assert(each_after_space(args) =~= seq![' '] + spaced(args));
    }
}

/// Spaces do not break a line.
proof fn lemma_each_unbroken(args: Seq<Seq<char>>)
    requires
        forall|i: int| 0 <= i < args.len() ==> is_unbroken(#[trigger] args[i]),
    ensures
        is_unbroken(each_after_space(args)),
    decreases args.len(),
{
    if args.len() > 0 {
        let front = args.drop_last();
        assert forall|i: int| 0 <= i < front.len() implies is_unbroken(#[trigger] front[i]) by {
            assert(front[i] == args[i]);
        }
        lemma_each_unbroken(front);
        assert(is_unbroken(args[args.len() - 1]));
        lemma_unbroken(each_after_space(front), seq![' ']);
        lemma_unbroken(each_after_space(front) + seq![' '], args.last());
    }
}

/// Two texts without a line break make one.
proof fn lemma_unbroken(a: Seq<char>, b: Seq<char>)
    requires
        is_unbroken(a),
        is_unbroken(b),
    ensures
        is_unbroken(a + b),
{
    assert forall|i: int| 0 <= i < (a + b).len() implies !is_line_break(#[trigger] (a + b)[i]) by {
        if i < a.len() {
            assert((a + b)[i] == a[i]);
        } else {
            assert((a + b)[i] == b[i - a.len()]);
        }
    }
}

/// What a message is written as, from the first character to the last: the
/// sender, the word of the command, the arguments, each after a space, the last
/// in a form that keeps it whole, and the end of the line.
pub proof fn law_line_says_it_all(
    message: IrcMessageView,
    origin: Seq<char>,
    word: Seq<char>,
    front: Seq<Seq<char>>,
    text: Seq<char>,
)
    requires
        is_origin(message.prefix, origin),
        is_word_of(message.command, word),
        are_arguments_of(message.command, front, text),
        is_unbroken(origin),
        is_unbroken(text),
        forall|i: int|
            0 <= i < front.len() ==> (#[trigger] front[i]).len() > 0 && is_unbroken(front[i]),
    ensures
        exists|wire: Seq<char>| #[trigger]
            is_on_wire(text, wire) && written(message) == Some(
                origin + word + each_after_space(front) + seq![' '] + wire + seq!['\r', '\n'],
            ),
{
    let (command, args) = fields(message.command)->0;
    assert(command == word);
    assert(args =~= front.push(as_last(text))) by {
        if let CommandView::Response(_, given) = message.command {
            if given.last() == seq![':'] + text {
                assert(given.last().drop_first() =~= text);
            }
        }
    }
    let wire = marked(as_last(text));
    law_last_argument_arrives(text);
    assert(is_on_wire(text, wire));
    assert(args.drop_last() =~= front);
    lemma_spaced(front);
    assert(arguments(args) =~= each_after_space(front) + seq![' '] + wire);
    let whole = rendered(message.prefix, command, args);
    let body = origin + word + each_after_space(front) + seq![' '] + wire;
    assert(whole =~= body + seq!['\r', '\n']);
    lemma_words_are_unbroken(message.command, word);
    lemma_each_unbroken(front);
    assert(is_unbroken(wire)) by {
        if wire == seq![':'] + text {
            lemma_unbroken(seq![':'], text);
        }
    }
    lemma_unbroken(origin, word);
    lemma_unbroken(origin + word, each_after_space(front));
    lemma_unbroken(origin + word + each_after_space(front), seq![' ']);
    lemma_unbroken(origin + word + each_after_space(front) + seq![' '], wire);
    assert forall|i: int| 0 <= i < body.len() implies !is_line_break(#[trigger] whole[i]) by {
        assert(whole[i] == body[i]);
    }
    assert(whole[body.len() as int] == '\r');
    assert(whole[body.len() as int + 1] == '\n');
    lemma_line_end_at(whole, body.len() as int);
    assert(first_line(whole) =~= whole);
}

} // verus!
