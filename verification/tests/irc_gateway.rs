use futures::sync::mpsc;
use futures::Stream;
use slack_irc::hub::{ChannelSender, Error as HubError, Event, Hub, Message, Receiver};
use slack_irc::irc_gateway::{
    Authentication, AuthenticationInfoBuilder, AuthenticationStep, Error, Input, IrcGateway,
    IrcWriter, Received,
};
use slack_irc::irc_message::{Command, IrcMessage, Response};

fn s(text: &str) -> String {
    text.to_string()
}

fn from_client(command: Command) -> IrcMessage {
    IrcMessage { prefix: None, command }
}

fn shown(messages: Vec<IrcMessage>) -> Vec<String> {
    messages.iter().map(|m| format!("{:?}", m)).collect()
}

fn privmsg(from: &str, to: &str, text: &str) -> String {
    format!(
        "{:?}",
        IrcMessage { prefix: Some(s(from)), command: Command::PRIVMSG(s(to), s(text)) }
    )
}

fn writer() -> IrcWriter {
    IrcWriter::new(Vec::new())
}

/// A conversation on handle 2 of a hub, and what reaches the hub.
fn conversation() -> (IrcGateway, Receiver) {
    let (tx, hub_rx) = mpsc::unbounded();
    let mut hub = Hub::new(tx);
    let (_first, _first_rx): (ChannelSender, Receiver) = hub.join().ok().unwrap();
    let (hub_tx, _rx) = hub.join().ok().unwrap();
    (IrcGateway::new(s("ann"), s("bot"), hub_tx), hub_rx)
}

fn event(message: Message) -> Event {
    Event { from: 1, to: None, message }
}

fn next(step: AuthenticationStep) -> Authentication {
    match step {
        AuthenticationStep::Wait(authentication) => authentication,
        _ => panic!("not waiting"),
    }
}

#[test]
fn the_builder_takes_nick_and_pass() {
    let mut builder = AuthenticationInfoBuilder::new();
    assert_eq!((&builder.nick, &builder.pass), (&None, &None));
    assert!(!builder.is_complete());
    assert!(builder.process(&Command::NICK(s("ann"))));
    assert!(!builder.is_complete());
    assert!(!builder.process(&Command::PING(s("x"), None)));
    assert!(builder.process(&Command::PASS(s("team.secret"))));
    assert!(builder.is_complete());
    assert!(builder.process(&Command::NICK(s("bob"))));
    let auth = builder.complete().unwrap();
    assert_eq!((auth.workspace, auth.nick, auth.pass), (s("team"), s("bob"), s("secret")));
}

#[test]
fn the_password_begins_after_the_first_dot() {
    let builder =
        AuthenticationInfoBuilder { nick: Some(s("ann")), pass: Some(s("team.se.cret.")) };
    let auth = builder.complete().unwrap();
    assert_eq!((auth.workspace, auth.pass), (s("team"), s("se.cret.")));
    let builder = AuthenticationInfoBuilder { nick: Some(s("ann")), pass: Some(s(".")) };
    let auth = builder.complete().unwrap();
    assert_eq!((auth.workspace, auth.pass), (s(""), s("")));
}

#[test]
fn the_builder_can_be_unable_to_complete() {
    assert!(AuthenticationInfoBuilder::new().complete().is_none());
    assert!(AuthenticationInfoBuilder { nick: Some(s("a")), pass: None }.complete().is_none());
    assert!(AuthenticationInfoBuilder { nick: None, pass: Some(s("a.b")) }.complete().is_none());
    assert!(AuthenticationInfoBuilder { nick: Some(s("a")), pass: Some(s("nodot")) }
        .complete()
        .is_none());
}

#[test]
fn logging_in_keeps_other_messages() {
    let mut a = Authentication::new();
    for command in [
        Command::Other,
        Command::PASS(s("old.pass")),
        Command::PING(s("one"), None),
        Command::PASS(s("team.secret")),
        Command::PRIVMSG(s("bot"), s("hi")),
    ] {
        a = next(IrcGateway::read_authenticate(a, Received::Message(from_client(command))));
    }
    match IrcGateway::read_authenticate(a, Received::Message(from_client(Command::NICK(s("ann"))))) {
        AuthenticationStep::Done(auth, buffered) => {
            assert_eq!((auth.workspace, auth.nick, auth.pass), (s("team"), s("ann"), s("secret")));
            assert_eq!(
                shown(buffered),
                shown(vec![
                    from_client(Command::Other),
                    from_client(Command::PING(s("one"), None)),
                    from_client(Command::PRIVMSG(s("bot"), s("hi"))),
                ])
            );
        }
        _ => panic!("not done"),
    }
}

#[test]
fn logging_in_can_fail() {
    assert!(matches!(
        IrcGateway::read_authenticate(Authentication::new(), Received::Closed),
        AuthenticationStep::Failed(Error::ConnectionLost)
    ));
    match IrcGateway::read_authenticate(Authentication::new(), Received::Failed(s("reset"))) {
        AuthenticationStep::Failed(Error::IrcError(e)) => assert_eq!(e, "reset"),
        _ => panic!("not failed"),
    }
    let a = next(IrcGateway::read_authenticate(
        Authentication::new(),
        Received::Message(from_client(Command::NICK(s("ann")))),
    ));
    assert!(matches!(
        IrcGateway::read_authenticate(
            a,
            Received::Message(from_client(Command::PASS(s("secret"))))
        ),
        AuthenticationStep::Failed(Error::InvalidPassword)
    ));
}

#[test]
fn the_greeting() {
    let messages = IrcGateway::welcome(writer(), "irc.example", "ann").into();
    let reply = |response: Response, args: &[&str]| IrcMessage {
        prefix: Some(s("irc.example")),
        command: Command::Response(response, args.iter().map(|a| s(a)).collect()),
    };
    assert_eq!(
        shown(messages),
        shown(vec![
            reply(Response::RPL_WELCOME, &["ann", ":Welcome to the Internet Relay Network"]),
            reply(
                Response::RPL_YOURHOST,
                &["ann", ":Your host is irc.example, running version slack-irc-rs-0.1"]
            ),
            reply(Response::RPL_CREATED, &["ann", ":This server was created sometime"]),
            reply(Response::RPL_MYINFO, &["ann", "irc.example", "slack-irc-rs-0.1", "o", "o"]),
            reply(Response::ERR_NOMOTD, &["MOTD File is missing"]),
        ])
    );
}

#[test]
fn the_writer_keeps_the_order() {
    let messages = writer()
        .privmsg(s("a"), s("b"), s("c"))
        .pong(Command::NICK(s("x")))
        .pong(Command::PING(s("one"), Some(s("two"))))
        .rpl(s("h"), Response::RPL_CREATED, vec![s("x")])
        .into();
    assert_eq!(
        shown(messages),
        shown(vec![
            IrcMessage { prefix: Some(s("a")), command: Command::PRIVMSG(s("b"), s("c")) },
            from_client(Command::PONG(s("one"), Some(s("two")))),
            IrcMessage {
                prefix: Some(s("h")),
                command: Command::Response(Response::RPL_CREATED, vec![s("x")])
            },
        ])
    );
}

#[test]
fn events_of_the_hub_become_messages() {
    let (gateway, _hub_rx) = conversation();
    let w = gateway.on_hub_event(writer(), event(Message::Message(s("U1"), s("C1"), s("hello"))));
    let w = gateway.on_hub_event(w, event(Message::AdminMessage(s("do this"))));
    let w = gateway.on_hub_event(w, event(Message::Error(s("broken"))));
    let w = gateway.on_hub_event(w, event(Message::NewChannel));
    let w = gateway.on_hub_event(w, event(Message::AdminCommand(s("x"), vec![])));
    assert_eq!(
        shown(w.into()),
        vec![
            privmsg("isra", "#general", "hello"),
            privmsg("bot", "ann", "do this"),
            privmsg("bot", "ann", "ERROR: broken"),
        ]
    );
}

#[test]
fn what_is_said_to_the_gateway_is_a_command() {
    let (mut gateway, hub_rx) = conversation();
    let said = |to: &str, text: &str| from_client(Command::PRIVMSG(s(to), s(text)));
    let w = gateway.on_irc_message(writer(), said("bot", " register  abc def ")).ok().unwrap();
    let w = gateway.on_irc_message(w, said("#general", "register abc")).ok().unwrap();
    let w = gateway.on_irc_message(w, said("bot", "  ")).ok().unwrap();
    let w = gateway.on_irc_message(w, said("bot", "help")).ok().unwrap();
    assert_eq!(shown(w.into()).len(), 0);
    drop(gateway);
    let events: Vec<Event> = hub_rx.wait().map(|e| e.unwrap()).collect();
    assert_eq!(
        events.iter().map(|e| format!("{:?}", e)).collect::<Vec<_>>(),
        vec![
            format!(
                "{:?}",
                Event {
                    from: 2,
                    to: None,
                    message: Message::AdminCommand(s("register"), vec![s("abc"), s("def")])
                }
            ),
            format!(
                "{:?}",
                Event { from: 2, to: None, message: Message::AdminCommand(s("help"), vec![]) }
            ),
        ]
    );
}

#[test]
fn a_ping_is_answered() {
    let (mut gateway, _hub_rx) = conversation();
    let w = gateway
        .on_irc_message(writer(), from_client(Command::PING(s("one"), None)))
        .ok()
        .unwrap();
    let w = gateway.on_irc_message(w, from_client(Command::Other)).ok().unwrap();
    assert_eq!(shown(w.into()), shown(vec![from_client(Command::PONG(s("one"), None))]));
}

#[test]
fn a_command_is_lost_without_a_hub() {
    let (mut gateway, hub_rx) = conversation();
    drop(hub_rx);
    assert!(matches!(
        gateway.on_irc_message(writer(), from_client(Command::PRIVMSG(s("bot"), s("x")))),
        Err(HubError::SendError)
    ));
    assert!(gateway
        .on_irc_message(writer(), from_client(Command::PRIVMSG(s("bot"), s(""))))
        .is_ok());
}

#[test]
fn everything_that_reaches_a_conversation() {
    let (mut gateway, _hub_rx) = conversation();
    let w = writer();
    let w = gateway.on_input(w, Input::Hub(event(Message::AdminMessage(s("a"))))).ok().unwrap();
    let w = gateway.on_input(w, Input::HubClosed).ok().unwrap();
    let w = gateway.on_input(w, Input::IrcFailed(s("reset"))).ok().unwrap();
    let w = gateway
        .on_input(w, Input::Irc(from_client(Command::PING(s("one"), None))))
        .ok()
        .unwrap();
    assert_eq!(
        shown(w.into()),
        vec![
            privmsg("bot", "ann", "a"),
            format!("{:?}", from_client(Command::PONG(s("one"), None))),
        ]
    );
}
