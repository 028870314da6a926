//! The IRC side: logging in, and the conversation afterwards.

use crate::account::{AuthenticationInfo, AuthenticationInfoView, HubInfo, HubInfoView};
use crate::channel::{refusal, ChannelView};
use crate::hub;
use crate::hub::{
    is_joined, ChannelSender, EventView, Message as HubMessage, MessageView, Receiver,
};
use crate::hub_manager::{is_connection, opened, Connection, HubManager, HubManagerView};
use crate::irc_message::{
    message_views, pong, privmsg, rpl, with_message, Command, CommandView, IrcMessage,
    IrcMessageView, Response,
};
use crate::password::is_password;
use crate::text::{is_split_once, option_view, split_once, split_words, views, words};
use vstd::prelude::*;

pub use crate::irc_message::IrcWriter;

verus! {

#[derive(Debug)]
pub enum Error {
    /// The client went away before it had logged in.
    ConnectionLost,
    /// The password does not name a workspace.
    InvalidPassword,
    /// The connection to the client failed.
    IrcError(String),
    /// The hub would not have the client.
    HubError(hub::Error),
    /// The hub is gone.
    HubClosed,
}

/// What a client has said so far about who it is.
#[derive(Debug)]
pub struct AuthenticationInfoBuilder {
    pub nick: Option<String>,
    pub pass: Option<String>,
}

pub struct AuthenticationInfoBuilderView {
    pub nick: Option<Seq<char>>,
    pub pass: Option<Seq<char>>,
}

impl View for AuthenticationInfoBuilder {
    type V = AuthenticationInfoBuilderView;

    open spec fn view(&self) -> AuthenticationInfoBuilderView {
        AuthenticationInfoBuilderView {
            nick: option_view(self.nick),
            pass: option_view(self.pass),
        }
    }
}

impl AuthenticationInfoBuilderView {
    pub open spec fn is_complete(self) -> bool {
        self.nick is Some && self.pass is Some
    }

    /// What is known after `command`.
    pub open spec fn after(self, command: CommandView) -> AuthenticationInfoBuilderView {
        match command {
            CommandView::NICK(nick) => AuthenticationInfoBuilderView { nick: Some(nick), ..self },
            CommandView::PASS(pass) => AuthenticationInfoBuilderView { pass: Some(pass), ..self },
            _ => self,
        }
    }
}

/// Whether a command is part of logging in.
pub open spec fn is_login_command(command: CommandView) -> bool {
    command is NICK || command is PASS
}

/// `auth` is what a client means that gives `nick` and `pass`: the password is
/// that of the workspace named in front of its first dot.
pub open spec fn is_login(nick: Seq<char>, pass: Seq<char>, auth: AuthenticationInfoView) -> bool {
    &&& auth.nick == nick
    &&& is_split_once(pass, '.', auth.workspace, auth.pass)
}

impl AuthenticationInfoBuilder {
    pub fn new() -> (res: AuthenticationInfoBuilder)
        ensures
            res@ == (AuthenticationInfoBuilderView { nick: None, pass: None }),
    {
        AuthenticationInfoBuilder { nick: None, pass: None }
    }

    /// Takes note of a command, and tells whether it was part of logging in.
    pub fn process(&mut self, command: &Command) -> (res: bool)
        ensures
            res == is_login_command(command@),
            final(self)@ == old(self)@.after(command@),
    {
        match command {
            Command::NICK(nick) => {
                self.nick = Some(nick.clone());
                true
            },
            Command::PASS(pass) => {
                self.pass = Some(pass.clone());
                true
            },
            _ => false,
        }
    }

    pub fn is_complete(&self) -> (res: bool)
        ensures
            res == self@.is_complete(),
    {
        self.nick.is_some() && self.pass.is_some()
    }

    /// Who the client is, if it has said enough and the password names a
    /// workspace.
    pub fn complete(self) -> (res: Option<AuthenticationInfo>)
        ensures
            match res {
                Some(auth) => self@.is_complete() && is_login(
                    self@.nick->0,
                    self@.pass->0,
                    auth@,
                ),
                None => self@.is_complete() ==> !self@.pass->0.contains('.'),
            },
    {
        match (self.nick, self.pass) {
            (Some(nick), Some(pass)) => match split_once(pass.as_str(), '.') {
                Some((workspace, pass)) => Some(AuthenticationInfo { workspace, nick, pass }),
                None => None,
            },
            _ => None,
        }
    }
}

/// A client that is logging in: what it has said about itself, and the other
/// messages that it has sent meanwhile.
pub struct Authentication {
    builder: AuthenticationInfoBuilder,
    buffered: Vec<IrcMessage>,
}

#[verifier::ext_equal]
pub struct AuthenticationView {
    pub builder: AuthenticationInfoBuilderView,
    pub buffered: Seq<IrcMessageView>,
}

impl View for Authentication {
    type V = AuthenticationView;

    closed spec fn view(&self) -> AuthenticationView {
        AuthenticationView { builder: self.builder@, buffered: message_views(self.buffered@) }
    }
}

impl AuthenticationView {
    /// A client that has not said anything.
    pub open spec fn start() -> AuthenticationView {
        AuthenticationView {
            builder: AuthenticationInfoBuilderView { nick: None, pass: None },
            buffered: Seq::empty(),
        }
    }

    /// The client after it has sent `message`.
    pub open spec fn after(self, message: IrcMessageView) -> AuthenticationView {
        AuthenticationView {
            builder: self.builder.after(message.command),
            buffered: if is_login_command(message.command) {
                self.buffered
            } else {
                self.buffered.push(message)
            },
        }
    }
}

/// A client that has sent `messages` since it connected.
pub open spec fn login_after(messages: Seq<IrcMessageView>) -> AuthenticationView
    decreases messages.len(),
{
    if messages.len() == 0 {
        AuthenticationView::start()
    } else {
        login_after(messages.drop_last()).after(messages.last())
    }
}

/// What came from a client.
pub enum Received {
    Message(IrcMessage),
    /// The client has closed the connection.
    Closed,
    /// The connection failed, and why.
    Failed(String),
}

/// How logging in goes on.
pub enum AuthenticationStep {
    /// The client has to say more.
    Wait(Authentication),
    /// The client has said who it is. The messages are those that are still
    /// to be handled, before any that come later.
    Done(AuthenticationInfo, Vec<IrcMessage>),
    Failed(Error),
}

impl Authentication {
    pub fn new() -> (res: Authentication)
        ensures
            res@ == AuthenticationView::start(),
    {
        let res = Authentication { builder: AuthenticationInfoBuilder::new(), buffered: Vec::new() };
        assert(res@ =~= AuthenticationView::start());
        res
    }
}

/// The conversation with a client that has logged in and joined its hub.
pub struct IrcGateway {
    nick: String,
    botnick: String,
    hub_tx: ChannelSender,
}

#[verifier::ext_equal]
pub struct IrcGatewayView {
    pub nick: Seq<char>,
    pub botnick: Seq<char>,
    pub handle: hub::ChannelHandle,
    pub hub_tx: ChannelView,
}

impl View for IrcGateway {
    type V = IrcGatewayView;

    closed spec fn view(&self) -> IrcGatewayView {
        IrcGatewayView {
            nick: self.nick@,
            botnick: self.botnick@,
            handle: self.hub_tx.id(),
            hub_tx: self.hub_tx@,
        }
    }
}

/// What a client is told about a message from the hub.
pub open spec fn hub_reply(
    nick: Seq<char>,
    botnick: Seq<char>,
    message: MessageView,
) -> Option<IrcMessageView> {
    match message {
        MessageView::Message(_, _, text) => Some(privmsg("isra"@, "#general"@, text)),
        MessageView::AdminMessage(text) => Some(privmsg(botnick, nick, text)),
        MessageView::Error(text) => Some(privmsg(botnick, nick, "ERROR: "@ + text)),
        _ => None,
    }
}

/// What the hub is told about a command of the client: what is said to the
/// gateway itself is a command to it, word by word.
pub open spec fn admin_command(botnick: Seq<char>, command: CommandView) -> Option<MessageView> {
    match command {
        CommandView::PRIVMSG(to, text) => {
            let list = split_words(text);
            if to == botnick && list.len() > 0 {
                Some(MessageView::AdminCommand(list[0], list.drop_first()))
            } else {
                None
            }
        },
        _ => None,
    }
}

/// The conversation after a message from the client; if the message is a
/// command to the gateway, the hub took it or not.
pub open spec fn after_message(
    before: IrcGatewayView,
    message: IrcMessageView,
    taken: bool,
) -> IrcGatewayView {
    match admin_command(before.botnick, message.command) {
        Some(command) => IrcGatewayView {
            hub_tx: before.hub_tx.offered(
                EventView { from: before.handle, to: None, message: command },
                taken,
            ),
            ..before
        },
        None => before,
    }
}

/// What it means to handle a message from the client: a command to the gateway
/// goes to the hub, which may be gone, and a PING is answered.
pub open spec fn is_conversation(
    before: IrcGatewayView,
    written: Seq<IrcMessageView>,
    message: IrcMessageView,
    res: Result<IrcWriter, hub::Error>,
    after: IrcGatewayView,
) -> bool {
    let command = admin_command(before.botnick, message.command);
    &&& after == after_message(before, message, res is Ok)
    &&& match res {
        Ok(writer) => {
            &&& writer@ == with_message(written, pong(message.command))
            &&& command is Some ==> before.hub_tx.refused.len() == 0
        },
        Err(e) => {
            &&& command is Some
            &&& e == hub::Error::SendError
            &&& refusal(
                before.hub_tx,
                EventView { from: before.handle, to: None, message: command->0 },
            )
        },
    }
}

/// What a client is greeted with.
pub open spec fn greeting(hostname: Seq<char>, nick: Seq<char>) -> Seq<IrcMessageView> {
    seq![
        rpl(
            hostname,
            Response::RPL_WELCOME,
            seq![nick, ":Welcome to the Internet Relay Network"@],
        ),
        rpl(
            hostname,
            Response::RPL_YOURHOST,
            seq![nick, ":Your host is "@ + hostname + ", running version slack-irc-rs-0.1"@],
        ),
        rpl(hostname, Response::RPL_CREATED, seq![nick, ":This server was created sometime"@]),
        rpl(
            hostname,
            Response::RPL_MYINFO,
            seq![nick, hostname, "slack-irc-rs-0.1"@, "o"@, "o"@],
        ),
        rpl(hostname, Response::ERR_NOMOTD, seq!["MOTD File is missing"@]),
    ]
}

/// What reaches a conversation.
pub enum Input {
    /// An event from the hub.
    Hub(hub::Event),
    /// The hub is gone.
    HubClosed,
    /// A message from the client.
    Irc(IrcMessage),
    /// The connection to the client failed, and why.
    IrcFailed(String),
}

/// A client in its hub: how it was let in, its way into the hub, and the
/// events that it gets.
pub struct Membership {
    pub connection: Connection,
    pub hub_tx: ChannelSender,
    pub hub_rx: Receiver,
}

/// What it means that a client has entered the hub `info` and joined it: the hub
/// is opened if it is not in use, and the client is its newest channel.
pub open spec fn is_membership(
    before: HubManagerView,
    info: HubInfoView,
    membership: Membership,
    after: HubManagerView,
) -> bool {
    let between = opened(before, info.id, membership.connection.gateway);
    &&& is_connection(before, info, membership.connection)
    &&& is_joined(
        between.hubs[info.id],
        membership.hub_tx,
        membership.hub_rx,
        after.hubs[info.id],
    )
    &&& after == HubManagerView {
        hubs: between.hubs.insert(info.id, after.hubs[info.id]),
        ..between
    }
}

impl IrcGateway {
    pub fn new(nick: String, botnick: String, hub_tx: ChannelSender) -> (res: IrcGateway)
        ensures
            res@ == (IrcGatewayView {
                nick: nick@,
                botnick: botnick@,
                handle: hub_tx.id(),
                hub_tx: hub_tx@,
            }),
    {
        IrcGateway { nick, botnick, hub_tx }
    }

    /// Goes on with logging in after something came from the client.
    pub fn read_authenticate(
        authentication: Authentication,
        received: Received,
    ) -> (res: AuthenticationStep)
        ensures
            match received {
                Received::Message(message) => {
                    let next = authentication@.after(message@);
                    if !next.builder.is_complete() {
                        res matches AuthenticationStep::Wait(waiting) && waiting@ == next
                    } else if next.builder.pass->0.contains('.') {
                        res matches AuthenticationStep::Done(auth, buffered) && is_login(
                            next.builder.nick->0,
                            next.builder.pass->0,
                            auth@,
                        ) && message_views(buffered@) == next.buffered
                    } else {
                        res == AuthenticationStep::Failed(Error::InvalidPassword)
                    }
                },
                Received::Closed => res == AuthenticationStep::Failed(Error::ConnectionLost),
                Received::Failed(e) => res == AuthenticationStep::Failed(Error::IrcError(e)),
            },
    {
        let Authentication { mut builder, mut buffered } = authentication;
        match received {
            Received::Message(message) => {
                let ghost next = authentication@.after(message@);
                if !builder.process(&message.command) {
                    buffered.push(message);
                }
                assert(message_views(buffered@) =~= next.buffered);
                if !builder.is_complete() {
                    return AuthenticationStep::Wait(Authentication { builder, buffered });
                }
                match builder.complete() {
                    Some(auth) => {
                        assert(next.builder.pass->0[auth@.workspace.len() as int] == '.');
                        AuthenticationStep::Done(auth, buffered)
                    },
                    None => AuthenticationStep::Failed(Error::InvalidPassword),
                }
            },
            Received::Closed => AuthenticationStep::Failed(Error::ConnectionLost),
            Received::Failed(e) => AuthenticationStep::Failed(Error::IrcError(e)),
        }
    }

    /// Lets a client into its hub, given what is stored about it, and makes it
    /// a channel of the hub.
    pub fn join_hub(
        hub_manager: &mut HubManager,
        auth_info: &AuthenticationInfo,
        hub_info: HubInfo,
    ) -> (res: Result<Membership, Error>)
        requires
            old(hub_manager).wf(),
            old(hub_manager)@.hubs.contains_key(hub_info.id) ==> !old(
                hub_manager,
            )@.hubs[hub_info.id].channels.contains_key(usize::MAX),
        ensures
            final(hub_manager).wf(),
            match res {
                Ok(membership) => {
                    &&& is_password(auth_info@.pass, hub_info@.settings.pass)
                    &&& is_membership(
                        old(hub_manager)@,
                        hub_info@,
                        membership,
                        final(hub_manager)@,
                    )
                },
                Err(e) => {
                    &&& !is_password(auth_info@.pass, hub_info@.settings.pass)
                    &&& e == Error::HubError(hub::Error::WrongPassword)
                    &&& final(hub_manager)@ == old(hub_manager)@
                },
            },
    {
        match hub_manager.connect(auth_info, hub_info) {
            Ok(connection) => match hub_manager.join(connection.hub) {
                Ok((hub_tx, hub_rx)) => Ok(Membership { connection, hub_tx, hub_rx }),
                Err(e) => Err(Error::HubError(e)),
            },
            Err(e) => Err(Error::HubError(e)),
        }
    }

    /// Greets a client.
    pub fn welcome(writer: IrcWriter, hostname: &str, nick: &str) -> (res: IrcWriter)
        ensures
            res@ == writer@ + greeting(hostname@, nick@),
    {
        let host = hostname.to_string();
        let mut args: Vec<String> = Vec::new();
        args.push(nick.to_string());
        args.push(":Welcome to the Internet Relay Network".to_string());
        assert(views(args@) =~= seq![nick@, ":Welcome to the Internet Relay Network"@]);
        let w1 = writer.rpl(host.clone(), Response::RPL_WELCOME, args);

        let mut version = ":Your host is ".to_string();
        version.append(hostname);
        version.append(", running version slack-irc-rs-0.1");
        let mut args: Vec<String> = Vec::new();
        args.push(nick.to_string());
        args.push(version);
        assert(views(args@) =~= seq![
            nick@,
            ":Your host is "@ + hostname@ + ", running version slack-irc-rs-0.1"@,
        ]);
        let w2 = w1.rpl(host.clone(), Response::RPL_YOURHOST, args);

        let mut args: Vec<String> = Vec::new();
        args.push(nick.to_string());
        args.push(":This server was created sometime".to_string());
        assert(views(args@) =~= seq![nick@, ":This server was created sometime"@]);
        let w3 = w2.rpl(host.clone(), Response::RPL_CREATED, args);

        let mut args: Vec<String> = Vec::new();
        args.push(nick.to_string());
        args.push(host.clone());
        args.push("slack-irc-rs-0.1".to_string());
        args.push("o".to_string());
        args.push("o".to_string());
        assert(views(args@) =~= seq![nick@, hostname@, "slack-irc-rs-0.1"@, "o"@, "o"@]);
        let w4 = w3.rpl(host.clone(), Response::RPL_MYINFO, args);

        let mut args: Vec<String> = Vec::new();
        args.push("MOTD File is missing".to_string());
        assert(views(args@) =~= seq!["MOTD File is missing"@]);
        let w5 = w4.rpl(host, Response::ERR_NOMOTD, args);
        assert(w5@ =~= writer@ + greeting(hostname@, nick@));
        w5
    }

    /// Tells the client about an event from the hub.
    pub fn on_hub_event(&self, writer: IrcWriter, event: hub::Event) -> (res: IrcWriter)
        ensures
            res@ == with_message(
                writer@,
                hub_reply(self@.nick, self@.botnick, event@.message),
            ),
    {
        match event.message {
            HubMessage::Message(_from, _to, text) => writer.privmsg(
                "isra".to_string(),
                "#general".to_string(),
                text,
            ),
            HubMessage::AdminMessage(text) => writer.privmsg(
                self.botnick.clone(),
                self.nick.clone(),
                text,
            ),
            HubMessage::Error(text) => {
                let mut report = "ERROR: ".to_string();
                report.append(text.as_str());
                writer.privmsg(self.botnick.clone(), self.nick.clone(), report)
            },
            _ => writer,
        }
    }

    /// Handles a message from the client: a command to the gateway goes to the
    /// hub, and a PING is answered. If the hub is gone the command is lost.
    pub fn on_irc_message(
        &mut self,
        writer: IrcWriter,
        message: IrcMessage,
    ) -> (res: Result<IrcWriter, hub::Error>)
        ensures
            is_conversation(old(self)@, writer@, message@, res, final(self)@),
    {
        match message.command {
            Command::PRIVMSG(to, msg) => {
                if to == self.botnick {
                    let mut args = words(msg.as_str());
                    if args.len() > 0 {
                        let ghost list = split_words(msg@);
                        assert(views(args@)[0] == args@[0]@);
                        let cmd = args.remove(0);
                        assert(views(args@) =~= list.drop_first());
                        match self.hub_tx.broadcast(HubMessage::AdminCommand(cmd, args)) {
                            Ok(()) => {},
                            Err(e) => {
                                return Err(e);
                            },
                        }
                    }
                }
                Ok(writer)
            },
            command => Ok(writer.pong(command)),
        }
    }

    /// Handles whatever reaches the conversation.
    pub fn on_input(&mut self, writer: IrcWriter, input: Input) -> (res: Result<
        IrcWriter,
        hub::Error,
    >)
        ensures
            match input {
                Input::Hub(event) => {
                    &&& res matches Ok(w) && w@ == with_message(
                        writer@,
                        hub_reply(old(self)@.nick, old(self)@.botnick, event@.message),
                    )
                    &&& final(self)@ == old(self)@
                },
                Input::Irc(message) => is_conversation(
                    old(self)@,
                    writer@,
                    message@,
                    res,
                    final(self)@,
                ),
                Input::HubClosed | Input::IrcFailed(_) => {
                    &&& res == Ok::<IrcWriter, hub::Error>(writer)
                    &&& final(self)@ == old(self)@
                },
            },
    {
        match input {
            Input::Hub(event) => Ok(self.on_hub_event(writer, event)),
            Input::Irc(message) => self.on_irc_message(writer, message),
            Input::HubClosed => Ok(writer),
            Input::IrcFailed(_) => Ok(writer),
        }
    }
}

} // verus!
