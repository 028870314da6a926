//! The course of one IRC connection: logging in, entering the hub, and the
//! conversation.

use crate::account::{AuthenticationInfo, AuthenticationInfoView, HubInfo};
use crate::channel::refusal;
use crate::hub;
use crate::hub::{ChannelSender, EventView, Receiver};
use crate::hub_manager::{is_lookup, Connection, HubManager, HubManagerView, Lookup, LookupStep};
use crate::irc_gateway::{
    admin_command, after_message, greeting, hub_reply, is_login, is_membership, Authentication,
    AuthenticationStep, AuthenticationView, Error, Input, IrcGateway, IrcGatewayView, Membership,
    Received,
};
use crate::irc_message::{
    message_views, pong, with_message, IrcMessage, IrcMessageView, IrcWriter,
};
use crate::password::{is_password, HashError};
use crate::settings::{Settings, SettingsView};
use vstd::prelude::*;

verus! {

/// Where a connection stands.
pub enum Stage {
    /// The client is saying who it is.
    LoggingIn(Authentication),
    /// The account of the client is being looked up.
    LookingUp { auth: AuthenticationInfo, buffered: Vec<IrcMessage>, lookup: Lookup },
    /// The client is in its hub but has not been greeted.
    Joined { nick: String, buffered: Vec<IrcMessage>, hub_tx: ChannelSender },
    /// The client has been greeted.
    Talking { gateway: IrcGateway, client_gone: bool, hub_gone: bool },
    /// Nothing more happens.
    Ended,
}

pub enum StageView {
    LoggingIn(AuthenticationView),
    LookingUp {
        auth: AuthenticationInfoView,
        buffered: Seq<IrcMessageView>,
        lookup: Lookup,
    },
    Joined { nick: Seq<char>, buffered: Seq<IrcMessageView>, hub_tx: ChannelSender },
    Talking { gateway: IrcGatewayView, client_gone: bool, hub_gone: bool },
    Ended,
}

impl View for Stage {
    type V = StageView;

    open spec fn view(&self) -> StageView {
        match self {
            Stage::LoggingIn(authentication) => StageView::LoggingIn(authentication@),
            Stage::LookingUp { auth, buffered, lookup } => StageView::LookingUp {
                auth: auth@,
                buffered: message_views(buffered@),
                lookup: *lookup,
            },
            Stage::Joined { nick, buffered, hub_tx } => StageView::Joined {
                nick: nick@,
                buffered: message_views(buffered@),
                hub_tx: *hub_tx,
            },
            Stage::Talking { gateway, client_gone, hub_gone } => StageView::Talking {
                gateway: gateway@,
                client_gone: *client_gone,
                hub_gone: *hub_gone,
            },
            Stage::Ended => StageView::Ended,
        }
    }
}

/// What reaches a connection.
pub enum SessionInput {
    /// From the client.
    Client(Received),
    /// The account that is stored for the client, if there is one.
    Found(Option<HubInfo>),
    /// The hub that the client has entered is running.
    Opened,
    /// An event from the hub.
    Hub(hub::Event),
    /// The hub could not be listened to.
    HubFailed,
    /// There are no more events from the hub.
    HubEnded,
}

/// What is to be done for a connection.
pub enum SessionAction {
    /// Wait for what comes next.
    Wait,
    /// Look up the account of a workspace and a nick.
    Find(String, String),
    /// Store an account, and look it up.
    Insert(HubInfo),
    /// Start the gateway of the hub if there is one to be started, and listen
    /// to the hub from now on.
    Open(Connection, Receiver),
    /// Write the first messages to the client, and hand in the others before
    /// anything else that comes from it.
    Greet(Vec<IrcMessage>, Vec<IrcMessage>),
    /// Write messages to the client.
    Write(Vec<IrcMessage>),
    /// The connection is over.
    Finish,
    /// The client cannot be served.
    Stop(Error),
    /// The password of a new client could not be hashed.
    HashFailed(HashError),
    /// A command of the client could not be passed on.
    CommandLost(hub::Error),
}

/// One IRC connection.
pub struct IrcSession {
    settings: Settings,
    stage: Stage,
}

pub struct SessionView {
    pub settings: SettingsView,
    pub stage: StageView,
}

impl View for IrcSession {
    type V = SessionView;

    closed spec fn view(&self) -> SessionView {
        SessionView { settings: self.settings@, stage: self.stage@ }
    }
}

impl SessionView {
    /// Whether `input` can come now, and there is everything that is needed for
    /// it.
    pub open spec fn expects(self, input: SessionInput) -> bool {
        match self.stage {
            StageView::LoggingIn(_) => input is Client,
            StageView::LookingUp { lookup, .. } => {
                input matches SessionInput::Found(found) && (lookup is AfterInsert ==> found is Some)
            },
            StageView::Joined { .. } => {
                input is Opened && self.settings.irc_host is Some && self.settings.irc_botnick is Some
            },
            StageView::Talking { .. } => input is Client || input is Hub || input is HubFailed
                || input is HubEnded,
            StageView::Ended => false,
        }
    }
}

/// Whether the hub of an account that was found has room for the client.
pub open spec fn fits(hubs: HubManagerView, input: SessionInput) -> bool {
    input matches SessionInput::Found(Some(info)) ==> (hubs.hubs.contains_key(info.id)
        ==> !hubs.hubs[info.id].channels.contains_key(usize::MAX))
}

/// What it means that something came from a client that is logging in.
pub open spec fn is_login_step(
    authentication: AuthenticationView,
    received: Received,
    action: SessionAction,
    after: StageView,
) -> bool {
    match received {
        Received::Message(message) => {
            let next = authentication.after(message@);
            if !next.builder.is_complete() {
                action is Wait && after == StageView::LoggingIn(next)
            } else if next.builder.pass->0.contains('.') {
                &&& after matches StageView::LookingUp { auth, buffered, lookup }
                &&& is_login(next.builder.nick->0, next.builder.pass->0, auth)
                &&& buffered == next.buffered
                &&& lookup is First
                &&& action matches SessionAction::Find(workspace, nick)
                &&& workspace@ == auth.workspace
                &&& nick@ == auth.nick
            } else {
                action == SessionAction::Stop(Error::InvalidPassword) && after is Ended
            }
        },
        Received::Closed => action == SessionAction::Stop(Error::ConnectionLost) && after is Ended,
        Received::Failed(e) => action == SessionAction::Stop(Error::IrcError(e)) && after is Ended,
    }
}

/// What it means that the account of a client was looked up: with the right
/// password the client enters and joins its hub, with a wrong one it is sent
/// away, and without an account it is to get one.
pub open spec fn is_lookup_step(
    hubs: HubManagerView,
    auth: AuthenticationInfoView,
    buffered: Seq<IrcMessageView>,
    found: Option<HubInfo>,
    action: SessionAction,
    after: StageView,
    hubs_after: HubManagerView,
) -> bool {
    match found {
        Some(info) => if is_password(auth.pass, info@.settings.pass) {
            &&& after matches StageView::Joined { nick, buffered: kept, hub_tx }
            &&& nick == auth.nick
            &&& kept == buffered
            &&& action matches SessionAction::Open(connection, hub_rx)
            &&& is_membership(
                hubs,
                info@,
                Membership { connection, hub_tx, hub_rx },
                hubs_after,
            )
        } else {
            &&& action == SessionAction::Stop(Error::HubError(hub::Error::WrongPassword))
            &&& after is Ended
            &&& hubs_after == hubs
        },
        None => {
            &&& hubs_after == hubs
            &&& match action {
                SessionAction::Insert(info) => {
                    &&& is_lookup(auth, None, LookupStep::Insert(info))
                    &&& after == StageView::LookingUp { auth, buffered, lookup: Lookup::AfterInsert }
                },
                SessionAction::HashFailed(e) => {
                    &&& is_lookup(auth, None, LookupStep::HashFailed(e))
                    &&& after is Ended
                },
                _ => false,
            }
        },
    }
}

/// What it means to greet a client: from then on it talks, beginning with the
/// messages that it sent before.
pub open spec fn is_greeting_step(
    settings: SettingsView,
    nick: Seq<char>,
    buffered: Seq<IrcMessageView>,
    hub_tx: ChannelSender,
    action: SessionAction,
    after: StageView,
) -> bool {
    &&& action matches SessionAction::Greet(written, rest)
    &&& message_views(written@) == greeting(settings.irc_host->0, nick)
    &&& message_views(rest@) == buffered
    &&& after == StageView::Talking {
        gateway: IrcGatewayView {
            nick,
            botnick: settings.irc_botnick->0,
            handle: hub_tx.id(),
            hub_tx: hub_tx@,
        },
        client_gone: false,
        hub_gone: false,
    }
}

/// Whether `action` is to write just this message, if there is one.
pub open spec fn is_writing(action: SessionAction, message: Option<IrcMessageView>) -> bool {
    &&& action matches SessionAction::Write(written)
    &&& message_views(written@) == with_message(Seq::empty(), message)
}

/// What it means that one of the two sides will not say anything more: once
/// neither does, the connection is over.
pub open spec fn is_end_step(
    gateway: IrcGatewayView,
    client_gone: bool,
    hub_gone: bool,
    action: SessionAction,
    after: StageView,
) -> bool {
    if client_gone && hub_gone {
        action is Finish && after is Ended
    } else {
        action is Wait && after == StageView::Talking { gateway, client_gone, hub_gone }
    }
}

/// What it means that something reached the conversation.
pub open spec fn is_talking_step(
    gateway: IrcGatewayView,
    client_gone: bool,
    hub_gone: bool,
    input: SessionInput,
    action: SessionAction,
    after: StageView,
) -> bool {
    let same = StageView::Talking { gateway, client_gone, hub_gone };
    match input {
        SessionInput::Client(Received::Message(message)) => {
            let command = admin_command(gateway.botnick, message@.command);
            match action {
                SessionAction::CommandLost(e) => {
                    &&& command is Some
                    &&& e == hub::Error::SendError
                    &&& refusal(
                        gateway.hub_tx,
                        EventView { from: gateway.handle, to: None, message: command->0 },
                    )
                    &&& after is Ended
                },
                _ => {
                    &&& is_writing(action, pong(message@.command))
                    &&& command is Some ==> gateway.hub_tx.refused.len() == 0
                    &&& after == StageView::Talking {
                        gateway: after_message(gateway, message@, true),
                        client_gone,
                        hub_gone,
                    }
                },
            }
        },
        SessionInput::Hub(event) => {
            &&& is_writing(action, hub_reply(gateway.nick, gateway.botnick, event@.message))
            &&& after == same
        },
        SessionInput::Client(Received::Closed) => is_end_step(
            gateway,
            true,
            hub_gone,
            action,
            after,
        ),
        SessionInput::HubEnded => is_end_step(gateway, client_gone, true, action, after),
        _ => is_writing(action, None) && after == same,
    }
}

/// What it means that a connection has handled `input`, which came when the
/// hubs were `hubs`.
pub open spec fn is_step(
    before: SessionView,
    hubs: HubManagerView,
    input: SessionInput,
    action: SessionAction,
    after: SessionView,
    hubs_after: HubManagerView,
) -> bool {
    &&& after.settings == before.settings
    &&& before.stage !is LookingUp ==> hubs_after == hubs
    &&& match before.stage {
        StageView::LoggingIn(authentication) => is_login_step(
            authentication,
            input->Client_0,
            action,
            after.stage,
        ),
        StageView::LookingUp { auth, buffered, .. } => is_lookup_step(
            hubs,
            auth,
            buffered,
            input->Found_0,
            action,
            after.stage,
            hubs_after,
        ),
        StageView::Joined { nick, buffered, hub_tx } => is_greeting_step(
            before.settings,
            nick,
            buffered,
            hub_tx,
            action,
            after.stage,
        ),
        StageView::Talking { gateway, client_gone, hub_gone } => is_talking_step(
            gateway,
            client_gone,
            hub_gone,
            input,
            action,
            after.stage,
        ),
        StageView::Ended => false,
    }
}

/// A connection on which nothing has happened.
pub open spec fn new_session(settings: SettingsView) -> SessionView {
    SessionView { settings, stage: StageView::LoggingIn(AuthenticationView::start()) }
}

impl IrcSession {
    /// A connection that has just been made.
    pub fn new(settings: Settings) -> (res: IrcSession)
        ensures
            res@ == new_session(settings@),
    {
        IrcSession { settings, stage: Stage::LoggingIn(Authentication::new()) }
    }

    /// Whether `input` can be handled now.
    pub fn is_ready_for(&self, hub_manager: &HubManager, input: &SessionInput) -> (res: bool)
        ensures
            res == (self@.expects(*input) && fits(hub_manager@, *input)),
    {
        match (&self.stage, input) {
            (Stage::LoggingIn(_), SessionInput::Client(_)) => true,
            (Stage::LookingUp { .. }, SessionInput::Found(Some(info))) => {
                hub_manager.can_enter(info.id)
            },
            (Stage::LookingUp { lookup, .. }, SessionInput::Found(None)) => match lookup {
                Lookup::First => true,
                Lookup::AfterInsert => false,
            },
            (Stage::Joined { .. }, SessionInput::Opened) => {
                self.settings.irc_host.is_some() && self.settings.irc_botnick.is_some()
            },
            (Stage::Talking { .. }, SessionInput::Client(_)) => true,
            (Stage::Talking { .. }, SessionInput::Hub(_)) => true,
            (Stage::Talking { .. }, SessionInput::HubFailed) => true,
            (Stage::Talking { .. }, SessionInput::HubEnded) => true,
            _ => false,
        }
    }

    fn log_in(authentication: Authentication, received: Received) -> (res: (Stage, SessionAction))
        ensures
            is_login_step(authentication@, received, res.1, res.0@),
    {
        match IrcGateway::read_authenticate(authentication, received) {
            AuthenticationStep::Wait(waiting) => (Stage::LoggingIn(waiting), SessionAction::Wait),
            AuthenticationStep::Done(auth, buffered) => {
                let action = SessionAction::Find(auth.workspace.clone(), auth.nick.clone());
                (Stage::LookingUp { auth, buffered, lookup: Lookup::First }, action)
            },
            AuthenticationStep::Failed(e) => (Stage::Ended, SessionAction::Stop(e)),
        }
    }

    fn look_up(
        hub_manager: &mut HubManager,
        auth: AuthenticationInfo,
        buffered: Vec<IrcMessage>,
        lookup: Lookup,
        found: Option<HubInfo>,
    ) -> (res: (Stage, SessionAction))
        requires
            old(hub_manager).wf(),
            lookup is AfterInsert ==> found is Some,
            fits(old(hub_manager)@, SessionInput::Found(found)),
        ensures
            final(hub_manager).wf(),
            is_lookup_step(
                old(hub_manager)@,
                auth@,
                message_views(buffered@),
                found,
                res.1,
                res.0@,
                final(hub_manager)@,
            ),
    {
        match HubManager::find_or_create(&auth, lookup, found) {
            LookupStep::Known(info) => match IrcGateway::join_hub(hub_manager, &auth, info) {
                Ok(membership) => {
                    let Membership { connection, hub_tx, hub_rx } = membership;
                    (
                        Stage::Joined { nick: auth.nick, buffered, hub_tx },
                        SessionAction::Open(connection, hub_rx),
                    )
                },
                Err(e) => (Stage::Ended, SessionAction::Stop(e)),
            },
            LookupStep::Insert(info) => (
                Stage::LookingUp { auth, buffered, lookup: Lookup::AfterInsert },
                SessionAction::Insert(info),
            ),
            LookupStep::HashFailed(e) => (Stage::Ended, SessionAction::HashFailed(e)),
        }
    }

    fn greet(
        hostname: &str,
        botnick: String,
        nick: String,
        buffered: Vec<IrcMessage>,
        hub_tx: ChannelSender,
    ) -> (res: (Stage, SessionAction))
        ensures
            ({
                &&& res.1 matches SessionAction::Greet(written, rest)
                &&& message_views(written@) == greeting(hostname@, nick@)
                &&& rest == buffered
            }),
            res.0@ == (StageView::Talking {
                gateway: IrcGatewayView {
                    nick: nick@,
                    botnick: botnick@,
                    handle: hub_tx.id(),
                    hub_tx: hub_tx@,
                },
                client_gone: false,
                hub_gone: false,
            }),
    {
        let writer = IrcGateway::welcome(IrcWriter::new(Vec::new()), hostname, nick.as_str());
        assert(writer@ =~= greeting(hostname@, nick@));
        let gateway = IrcGateway::new(nick, botnick, hub_tx);
        (
            Stage::Talking { gateway, client_gone: false, hub_gone: false },
            SessionAction::Greet(writer.into(), buffered),
        )
    }

    fn talk(gateway: IrcGateway, client_gone: bool, hub_gone: bool, input: SessionInput) -> (res: (
        Stage,
        SessionAction,
    ))
        requires
            input is Client || input is Hub || input is HubFailed || input is HubEnded,
        ensures
            is_talking_step(gateway@, client_gone, hub_gone, input, res.1, res.0@),
    {
        let heard = match input {
            SessionInput::Client(Received::Message(message)) => Input::Irc(message),
            SessionInput::Client(Received::Failed(e)) => Input::IrcFailed(e),
            SessionInput::Client(Received::Closed) => {
                return Self::fall_silent(gateway, true, hub_gone);
            },
            SessionInput::Hub(event) => Input::Hub(event),
            SessionInput::HubEnded => {
                return Self::fall_silent(gateway, client_gone, true);
            },
            _ => Input::HubClosed,
        };
        let mut gateway = gateway;
        let writer = IrcWriter::new(Vec::new());
        assert(writer@ =~= Seq::<IrcMessageView>::empty());
        match gateway.on_input(writer, heard) {
            Ok(writer) => (
                Stage::Talking { gateway, client_gone, hub_gone },
                SessionAction::Write(writer.into()),
            ),
            Err(e) => (Stage::Ended, SessionAction::CommandLost(e)),
        }
    }

    fn fall_silent(gateway: IrcGateway, client_gone: bool, hub_gone: bool) -> (res: (
        Stage,
        SessionAction,
    ))
        ensures
            is_end_step(gateway@, client_gone, hub_gone, res.1, res.0@),
    {
        if client_gone && hub_gone {
            (Stage::Ended, SessionAction::Finish)
        } else {
            (Stage::Talking { gateway, client_gone, hub_gone }, SessionAction::Wait)
        }
    }

    /// Handles whatever reaches the connection, and returns what is to be done.
    pub fn step(self, hub_manager: &mut HubManager, input: SessionInput) -> (res: (
        IrcSession,
        SessionAction,
    ))
        requires
            old(hub_manager).wf(),
            self@.expects(input),
            fits(old(hub_manager)@, input),
        ensures
            final(hub_manager).wf(),
            is_step(self@, old(hub_manager)@, input, res.1, res.0@, final(hub_manager)@),
    {
        let IrcSession { settings, stage } = self;
        let (stage, action) = match (stage, input) {
            (Stage::LoggingIn(authentication), SessionInput::Client(received)) => Self::log_in(
                authentication,
                received,
            ),
            (
                Stage::LookingUp { auth, buffered, lookup },
                SessionInput::Found(found),
            ) => Self::look_up(hub_manager, auth, buffered, lookup, found),
            (Stage::Joined { nick, buffered, hub_tx }, _) => Self::greet(
                settings.irc_host.as_ref().unwrap().as_str(),
                settings.irc_botnick.clone().unwrap(),
                nick,
                buffered,
                hub_tx,
            ),
            (Stage::Talking { gateway, client_gone, hub_gone }, input) => Self::talk(
                gateway,
                client_gone,
                hub_gone,
                input,
            ),
            _ => vstd::pervasive::unreached(),
        };
        (IrcSession { settings, stage }, action)
    }
}

} // verus!
