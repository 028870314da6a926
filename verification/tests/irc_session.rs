use futures::Stream;
use slack_irc::account::{HubInfo, HubSettings};
use slack_irc::hub::{Error as HubError, Event, Message, Receiver};
use slack_irc::hub_manager::{Connection, HubManager};
use slack_irc::irc_gateway::{Error, Received};
use slack_irc::irc_line::read_line;
use slack_irc::irc_message::{Command, IrcMessage};
use slack_irc::irc_session::{IrcSession, SessionAction, SessionInput};
use slack_irc::settings::Settings;

/// The hash of `correctbatteryhorsestapler`.
const HASHED: &str = "$2a$04$n4Uy0eSnMfvnESYL.bLwuuj0U/ETSsoTpRT9GVk5bektyVVa5xnIi";

fn s(text: &str) -> String {
    text.to_string()
}

fn settings() -> Settings {
    Settings {
        database: None,
        irc_botnick: Some(s("bot")),
        irc_host: Some(s("irc.example")),
        irc_listen: None,
        slack_client_id: None,
        slack_secret: None,
    }
}

fn info(id: u32, pass: &str) -> HubInfo {
    HubInfo {
        id,
        workspace: s("team"),
        nick: s("ann"),
        settings: HubSettings { pass: s(pass), token: None },
    }
}

fn client(line: &str) -> SessionInput {
    SessionInput::Client(read_line(line))
}

fn step(session: IrcSession, hubs: &mut HubManager, input: SessionInput) -> (IrcSession, SessionAction) {
    assert!(session.is_ready_for(hubs, &input));
    session.step(hubs, input)
}

/// A connection whose client has said who it is.
fn logged_in(hubs: &mut HubManager, pass: &str) -> IrcSession {
    let session = IrcSession::new(settings());
    let (session, action) = step(session, hubs, client("CAP LS\r\n"));
    assert!(matches!(action, SessionAction::Wait));
    let (session, action) = step(session, hubs, client(&format!("PASS team.{}\r\n", pass)));
    assert!(matches!(action, SessionAction::Wait));
    let (session, action) = step(session, hubs, client("NICK ann\r\n"));
    match action {
        SessionAction::Find(workspace, nick) => {
            assert_eq!((workspace, nick), (s("team"), s("ann")));
        }
        _ => panic!("nothing to find"),
    }
    session
}

/// A connection that has been greeted, and both ways to and from its hub.
fn talking(hubs: &mut HubManager) -> (IrcSession, Connection, Receiver) {
    let session = logged_in(hubs, "correctbatteryhorsestapler");
    let (session, action) = step(session, hubs, SessionInput::Found(Some(info(3, HASHED))));
    let (connection, hub_rx) = match action {
        SessionAction::Open(connection, hub_rx) => (connection, hub_rx),
        _ => panic!("not opened"),
    };
    let (session, action) = step(session, hubs, SessionInput::Opened);
    match action {
        SessionAction::Greet(written, rest) => {
            assert_eq!(written.len(), 5);
            assert!(written.iter().all(|m| m.prefix == Some(s("irc.example"))));
            assert_eq!(rest.len(), 1);
            assert!(matches!(rest[0].command, Command::Other));
        }
        _ => panic!("not greeted"),
    }
    (session, connection, hub_rx)
}

fn written(action: SessionAction) -> Vec<IrcMessage> {
    match action {
        SessionAction::Write(messages) => messages,
        _ => panic!("nothing to write"),
    }
}

#[test]
fn a_connection_from_login_to_end() {
    let mut hubs = HubManager::new(settings());
    let (session, connection, _hub_rx) = talking(&mut hubs);
    assert_eq!(connection.hub, 3);
    let link = connection.gateway.unwrap();
    let (session, action) = step(session, &mut hubs, client("PRIVMSG bot :register c0de\r\n"));
    assert_eq!(written(action).len(), 0);
    let (session, action) = step(session, &mut hubs, client("PING x\r\n"));
    assert!(matches!(&written(action)[..],
        [IrcMessage { prefix: None, command: Command::PONG(x, None) }] if x == "x"));
    let event = Event { from: 1, to: Some(2), message: Message::AdminMessage(s("hello")) };
    let (session, action) = step(session, &mut hubs, SessionInput::Hub(event));
    assert!(matches!(&written(action)[..],
        [IrcMessage { prefix: Some(from), command: Command::PRIVMSG(to, text) }]
            if from == "bot" && to == "ann" && text == "hello"));
    let (session, action) = step(session, &mut hubs, client("MODE ann x\r\n"));
    assert_eq!(written(action).len(), 0);
    let (session, action) = step(session, &mut hubs, SessionInput::HubFailed);
    assert_eq!(written(action).len(), 0);
    let (session, action) = step(session, &mut hubs, SessionInput::Client(Received::Closed));
    assert!(matches!(action, SessionAction::Wait));
    let (session, action) = step(session, &mut hubs, SessionInput::HubEnded);
    assert!(matches!(action, SessionAction::Finish));
    assert!(!session.is_ready_for(&hubs, &SessionInput::HubEnded));
    drop(hubs);
    drop(session);
    drop(link.sender);
    let up: Vec<Event> = link.hub_rx.wait().map(|e| e.unwrap()).collect();
    assert_eq!(up.len(), 1);
    assert_eq!((up[0].from, up[0].to), (2, None));
    assert!(matches!(&up[0].message, Message::AdminCommand(c, a) if c == "register" && a == &[s("c0de")]));
}

#[test]
fn the_hub_can_end_first() {
    let mut hubs = HubManager::new(settings());
    let (session, _connection, _hub_rx) = talking(&mut hubs);
    let (session, action) = step(session, &mut hubs, SessionInput::HubEnded);
    assert!(matches!(action, SessionAction::Wait));
    let (_session, action) = step(session, &mut hubs, SessionInput::Client(Received::Closed));
    assert!(matches!(action, SessionAction::Finish));
}

#[test]
fn a_first_visit_stores_an_account() {
    let mut hubs = HubManager::new(settings());
    let session = logged_in(&mut hubs, "secret");
    let (session, action) = step(session, &mut hubs, SessionInput::Found(None));
    let inserted = match action {
        SessionAction::Insert(inserted) => inserted,
        _ => panic!("nothing to insert"),
    };
    assert_eq!((&inserted.workspace, &inserted.nick), (&s("team"), &s("ann")));
    assert!(!session.is_ready_for(&hubs, &SessionInput::Found(None)));
    let stored = HubInfo { id: 9, ..inserted };
    let (_session, action) = step(session, &mut hubs, SessionInput::Found(Some(stored)));
    match action {
        SessionAction::Open(connection, _) => {
            assert_eq!(connection.hub, 9);
            assert!(connection.gateway.is_some());
        }
        _ => panic!("not opened"),
    }
}

#[test]
fn a_connection_is_refused() {
    let mut hubs = HubManager::new(settings());
    let session = logged_in(&mut hubs, "wrong");
    let (session, action) = step(session, &mut hubs, SessionInput::Found(Some(info(3, HASHED))));
    assert!(matches!(action, SessionAction::Stop(Error::HubError(HubError::WrongPassword))));
    assert!(!session.is_ready_for(&hubs, &client("PING x\r\n")));
    let (_session, connection, _rx) = talking(&mut hubs);
    assert!(connection.gateway.is_some());
}

#[test]
fn a_connection_fails_while_logging_in() {
    let mut hubs = HubManager::new(settings());
    let (_, action) =
        step(IrcSession::new(settings()), &mut hubs, SessionInput::Client(Received::Closed));
    assert!(matches!(action, SessionAction::Stop(Error::ConnectionLost)));
    let (_, action) = step(IrcSession::new(settings()), &mut hubs, client("MODE ann x\r\n"));
    assert!(matches!(action, SessionAction::Stop(Error::IrcError(_))));
    let (session, _) = step(IrcSession::new(settings()), &mut hubs, client("NICK ann\r\n"));
    let (_, action) = step(session, &mut hubs, client("PASS nodot\r\n"));
    assert!(matches!(action, SessionAction::Stop(Error::InvalidPassword)));
    let session = logged_in(&mut hubs, "a\0b");
    let (_, action) = step(session, &mut hubs, SessionInput::Found(None));
    assert!(matches!(action, SessionAction::HashFailed(e) if e.is_refusal()));
}

#[test]
fn a_command_is_lost_when_the_hub_is_gone() {
    let mut hubs = HubManager::new(settings());
    let (session, connection, _rx) = talking(&mut hubs);
    drop(connection);
    let (session, action) = step(session, &mut hubs, client("PRIVMSG bot :x\r\n"));
    assert!(matches!(action, SessionAction::CommandLost(HubError::SendError)));
    assert!(!session.is_ready_for(&hubs, &SessionInput::HubEnded));
}

#[test]
fn what_a_connection_expects() {
    let mut hubs = HubManager::new(settings());
    let session = IrcSession::new(settings());
    assert!(session.is_ready_for(&hubs, &SessionInput::Client(Received::Closed)));
    assert!(!session.is_ready_for(&hubs, &SessionInput::Found(None)));
    assert!(!session.is_ready_for(&hubs, &SessionInput::Opened));
    assert!(!session.is_ready_for(&hubs, &SessionInput::HubEnded));
    let session = logged_in(&mut hubs, "x");
    assert!(!session.is_ready_for(&hubs, &client("PING x\r\n")));
    assert!(session.is_ready_for(&hubs, &SessionInput::Found(Some(info(1, HASHED)))));
    let nameless = Settings { irc_botnick: None, ..settings() };
    let session = IrcSession::new(nameless);
    let (session, _) = step(session, &mut hubs, client("NICK ann\r\n"));
    let (session, _) = step(session, &mut hubs, client("PASS team.correctbatteryhorsestapler\r\n"));
    let (session, action) = step(session, &mut hubs, SessionInput::Found(Some(info(1, HASHED))));
    assert!(matches!(action, SessionAction::Open(..)));
    assert!(!session.is_ready_for(&hubs, &SessionInput::Opened));
    assert!(hubs.can_enter(1));
    assert!(hubs.can_enter(2));
    assert!(hubs.has_room(1));
    assert!(!hubs.has_room(2));
}
