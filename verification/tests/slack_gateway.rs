use futures::sync::mpsc;
use futures::Stream;
use slack_irc::account::{HubInfo, HubSettings, StoredInfo};
use slack_irc::hub::{Error as HubError, Event, Hub, Message, Receiver};
use slack_irc::settings::Settings;
use slack_irc::slack_gateway::{
    AccessReply, Action, Error, Input, SlackEvent, SlackGatewayState, SlackMessage,
};

fn s(text: &str) -> String {
    text.to_string()
}

fn settings() -> Settings {
    Settings {
        database: None,
        irc_botnick: None,
        irc_host: None,
        irc_listen: None,
        slack_client_id: Some(s("12.34")),
        slack_secret: Some(s("hush")),
    }
}

/// A gateway on the first handle of a hub, and what reaches the hub.
fn gateway_with(settings: Settings, token: Option<&str>) -> (SlackGatewayState, Receiver) {
    let (tx, hub_rx) = mpsc::unbounded();
    let mut hub = Hub::new(tx);
    let (hub_tx, _rx) = hub.join().ok().unwrap();
    let info = HubInfo {
        id: 5,
        workspace: s("team"),
        nick: s("ann"),
        settings: HubSettings { pass: s("hash"), token: token.map(s) },
    };
    (SlackGatewayState::new(hub_tx, settings, StoredInfo::new(info)), hub_rx)
}

fn gateway() -> (SlackGatewayState, Receiver) {
    gateway_with(settings(), None)
}

fn sent(gateway: SlackGatewayState, hub_rx: Receiver) -> Vec<String> {
    drop(gateway);
    hub_rx.wait().map(|e| format!("{:?}", e.unwrap())).collect()
}

fn to(channel: usize, message: Message) -> String {
    format!("{:?}", Event { from: 1, to: Some(channel), message })
}

fn to_all(message: Message) -> String {
    format!("{:?}", Event { from: 1, to: None, message })
}

fn command(from: usize, cmd: &str, args: &[&str]) -> Input {
    Input::Hub(Event {
        from,
        to: None,
        message: Message::AdminCommand(s(cmd), args.iter().map(|a| s(a)).collect()),
    })
}

fn standard(channel: Option<&str>, text: Option<&str>, user: Option<&str>) -> Input {
    Input::Slack(SlackEvent::Event(SlackMessage::Standard {
        channel: channel.map(s),
        text: text.map(s),
        user: user.map(s),
    }))
}

#[test]
fn a_new_channel_is_told_how_to_get_a_token() {
    let (mut gateway, hub_rx) = gateway();
    assert!(gateway.on_new_channel(3).is_ok());
    let lines = [
        "#### Retrieving a Slack token via OAUTH ####",
        "1) Paste this into a browser: \
         https://slack.com/oauth/authorize?client_id=12.34&scope=client",
        "2) Select the team you wish to access from wee-slack in your browser.",
        "3) Click \"Authorize\" in the browser **IMPORTANT: the redirect will fail, \
         this is expected**",
        "4) Copy the \"code\" portion of the URL to your clipboard",
        "5) Return to this channel and send `register [code]`",
    ];
    let expected: Vec<String> =
        lines.iter().map(|line| to(3, Message::AdminMessage(s(line)))).collect();
    assert_eq!(sent(gateway, hub_rx), expected);
}

#[test]
fn a_new_channel_is_told_nothing_once_slack_runs() {
    let (mut gateway, hub_rx) = gateway();
    assert!(gateway.on_login(Ok(())).is_ok());
    assert!(gateway.on_new_channel(3).is_ok());
    assert_eq!(sent(gateway, hub_rx).len(), 0);
}

#[test]
fn nobody_can_be_told_without_a_hub() {
    let (mut gateway, hub_rx) = gateway();
    drop(hub_rx);
    assert!(matches!(gateway.on_new_channel(3), Err(HubError::SendError)));
    assert!(matches!(gateway.broadcast(Message::NewChannel), Err(HubError::SendError)));
    assert!(matches!(gateway.send_to(1, Message::NewChannel), Err(HubError::SendError)));
    assert!(matches!(
        gateway.on_registered(3, Err(Error::InvalidCode)),
        Err(HubError::SendError)
    ));
    assert!(matches!(
        gateway.on_input(standard(Some("C"), Some("t"), Some("U"))),
        Err(HubError::SendError)
    ));
}

#[test]
fn only_a_code_is_registered() {
    let (gateway, _hub_rx) = gateway();
    let registration = gateway.on_command(4, "register", &vec![s("c0de")]).unwrap();
    assert_eq!(registration.from, 4);
    assert_eq!(registration.request.client_id, "12.34");
    assert_eq!(registration.request.client_secret, "hush");
    assert_eq!(registration.request.code, "c0de");
    assert!(gateway.on_command(4, "register", &vec![]).is_none());
    assert!(gateway.on_command(4, "register", &vec![s("a"), s("b")]).is_none());
    assert!(gateway.on_command(4, "Register", &vec![s("a")]).is_none());
    assert!(gateway.on_command(4, "help", &vec![s("a")]).is_none());
    let request = gateway.register_code("other");
    assert_eq!((request.client_id, request.client_secret), (s("12.34"), s("hush")));
    assert_eq!(request.code, "other");
}

#[test]
fn what_slack_answers_to_a_code() {
    assert_eq!(SlackGatewayState::code_answered(AccessReply::Granted(Some(s("t")))).ok(), Some(s("t")));
    assert!(matches!(
        SlackGatewayState::code_answered(AccessReply::InvalidCode),
        Err(Error::InvalidCode)
    ));
    match SlackGatewayState::code_answered(AccessReply::NoClient(s("no tls"))) {
        Err(Error::SlackApiError(text)) => assert_eq!(text, "no tls"),
        other => panic!("{:?}", other),
    }
    match SlackGatewayState::code_answered(AccessReply::Refused(s("NotAuthed"))) {
        Err(Error::SlackAccessError(text)) => assert_eq!(text, "NotAuthed"),
        other => panic!("{:?}", other),
    }
}

#[test]
fn errors_are_described() {
    assert_eq!(Error::NoToken.describe(), "NoToken");
    assert_eq!(Error::InvalidCode.describe(), "InvalidCode");
    assert_eq!(Error::SlackApiError(s("x")).describe(), "SlackApiError(x)");
    assert_eq!(Error::SlackAccessError(s("y")).describe(), "SlackAccessError(y)");
    assert_eq!(Error::SlackError(s("z")).describe(), "SlackError(z)");
    assert_eq!(Error::AlreadyStarted.describe(), "AlreadyStarted");
}

#[test]
fn an_invalid_code_is_told_to_the_user() {
    let (mut gateway, hub_rx) = gateway();
    assert!(matches!(gateway.on_registered(4, Err(Error::InvalidCode)), Ok(None)));
    assert_eq!(
        sent(gateway, hub_rx),
        vec![to(4, Message::AdminMessage(s("The code appears to be invalid")))]
    );
}

#[test]
fn other_trouble_with_a_code_is_told_to_all() {
    let (mut gateway, hub_rx) = gateway();
    let reply = AccessReply::Refused(s("BadClientSecret"));
    assert!(matches!(gateway.on_input(Input::Registered(4, reply)), Ok(None)));
    assert_eq!(
        sent(gateway, hub_rx),
        vec![to_all(Message::Error(s(
            "[Slack] Failed to register code: SlackAccessError(BadClientSecret)"
        )))]
    );
}

#[test]
fn from_code_to_running_client() {
    let (mut gateway, hub_rx) = gateway();
    assert!(matches!(gateway.try_start_slack(), Err(Error::NoToken)));
    let registration = match gateway.on_input(command(4, "register", &["c0de"])) {
        Ok(Some(Action::Register(registration))) => registration,
        other => panic!("{:?}", other),
    };
    assert_eq!((registration.from, registration.request.code), (4, s("c0de")));
    match gateway.on_input(Input::Registered(4, AccessReply::Granted(Some(s("xoxp"))))) {
        Ok(Some(Action::Save(token))) => assert_eq!(token, "xoxp"),
        other => panic!("{:?}", other),
    }
    assert_eq!(gateway.hub_info().settings.token, Some(s("xoxp")));
    assert_eq!(gateway.hub_info().settings.pass, "hash");
    assert_eq!(gateway.hub_info().id, 5);
    assert_eq!(gateway.try_start_slack().ok(), Some(s("xoxp")));
    match gateway.on_input(Input::Saved(s("xoxp"))) {
        Ok(Some(Action::LogIn(token))) => assert_eq!(token, "xoxp"),
        other => panic!("{:?}", other),
    }
    assert!(matches!(gateway.on_input(Input::LoggedIn(Ok(()))), Ok(None)));
    assert!(matches!(gateway.try_start_slack(), Err(Error::AlreadyStarted)));
    assert!(matches!(gateway.start_slack("other"), Err(Error::AlreadyStarted)));
    assert_eq!(sent(gateway, hub_rx).len(), 0);
}

#[test]
fn a_login_can_fail() {
    let (mut gateway, hub_rx) = gateway();
    assert!(matches!(gateway.on_input(Input::LoggedIn(Err(s("Api(\"x\")")))), Ok(None)));
    assert_eq!(gateway.start_slack("again").ok(), Some(s("again")));
    match gateway.on_login(Err(s("late"))) {
        Err(Error::SlackError(text)) => assert_eq!(text, "late"),
        other => panic!("{:?}", other),
    }
    assert_eq!(
        sent(gateway, hub_rx),
        vec![to_all(Message::Error(s("[Slack] Failed to connect: SlackError(Api(\"x\"))")))]
    );
}

#[test]
fn the_client_starts_once() {
    let (mut gateway, hub_rx) = gateway_with(settings(), Some("xoxp"));
    assert_eq!(gateway.try_start_slack().ok(), Some(s("xoxp")));
    assert!(gateway.on_login(Ok(())).is_ok());
    assert!(matches!(gateway.on_input(Input::Saved(s("new"))), Ok(None)));
    assert!(matches!(gateway.try_start_slack(), Err(Error::AlreadyStarted)));
    assert_eq!(
        sent(gateway, hub_rx),
        vec![to_all(Message::Error(s("[Slack] Failed to connect: AlreadyStarted")))]
    );
}

#[test]
fn the_client_is_not_started_again_whatever_happens() {
    let (mut gateway, _hub_rx) = gateway();
    assert!(matches!(gateway.on_input(Input::LoggedIn(Ok(()))), Ok(None)));
    for input in [
        standard(Some("C1"), Some("hello"), Some("U1")),
        Input::Slack(SlackEvent::Close),
        Input::LoggedIn(Err(s("late"))),
        command(2, "help", &[]),
    ] {
        assert!(matches!(gateway.on_input(input), Ok(None)));
    }
    let granted = Input::Registered(2, AccessReply::Granted(Some(s("new"))));
    assert!(matches!(gateway.on_input(granted), Ok(Some(Action::Save(_)))));
    assert!(matches!(gateway.on_input(Input::Saved(s("new"))), Ok(None)));
    assert!(matches!(gateway.try_start_slack(), Err(Error::AlreadyStarted)));
}

#[test]
fn a_client_with_a_stored_token_is_not_started_again() {
    let (mut gateway, _hub_rx) = gateway_with(settings(), Some("xoxp"));
    assert_eq!(gateway.try_start_slack().ok(), Some(s("xoxp")));
    assert!(gateway.on_login(Err(s("down"))).is_err());
    assert_eq!(gateway.try_start_slack().ok(), Some(s("xoxp")));
    assert!(gateway.on_login(Ok(())).is_ok());
    assert!(matches!(gateway.on_input(Input::Slack(SlackEvent::Close)), Ok(None)));
    assert!(matches!(gateway.try_start_slack(), Err(Error::AlreadyStarted)));
    assert!(matches!(gateway.on_input(Input::Saved(s("new"))), Ok(None)));
}

#[test]
fn a_failed_login_can_be_tried_again() {
    let (mut gateway, _hub_rx) = gateway();
    for token in ["one", "two"] {
        match gateway.on_input(Input::Saved(s(token))) {
            Ok(Some(Action::LogIn(login))) => assert_eq!(login, token),
            other => panic!("{:?}", other),
        }
        assert!(matches!(gateway.on_input(Input::LoggedIn(Err(s("down")))), Ok(None)));
    }
    assert!(matches!(gateway.on_input(Input::LoggedIn(Ok(()))), Ok(None)));
    assert!(matches!(gateway.start_slack("three"), Err(Error::AlreadyStarted)));
}

#[test]
fn what_is_written_at_slack_is_told_to_all() {
    let (mut gateway, hub_rx) = gateway();
    assert!(matches!(
        gateway.on_input(standard(Some("C1"), Some("hello"), Some("U1"))),
        Ok(None)
    ));
    for event in [SlackEvent::Connect, SlackEvent::Close, SlackEvent::Event(SlackMessage::Other)] {
        assert!(matches!(gateway.on_input(Input::Slack(event)), Ok(None)));
    }
    assert_eq!(
        sent(gateway, hub_rx),
        vec![to_all(Message::Message(s("U1"), s("C1"), s("hello")))]
    );
}

#[test]
fn other_events_of_the_hub_are_ignored() {
    let (mut gateway, hub_rx) = gateway();
    for message in [
        Message::AdminMessage(s("x")),
        Message::Error(s("x")),
        Message::Message(s("a"), s("b"), s("c")),
    ] {
        let event = Event { from: 2, to: None, message };
        assert!(matches!(gateway.on_input(Input::Hub(event)), Ok(None)));
    }
    assert!(matches!(gateway.on_input(command(2, "unregister", &["x"])), Ok(None)));
    assert_eq!(sent(gateway, hub_rx).len(), 0);
}

#[test]
fn what_the_gateway_needs() {
    let new_channel = || Input::Hub(Event { from: 2, to: None, message: Message::NewChannel });
    let (ready, _rx) = gateway();
    assert!(ready.is_ready_for(&new_channel()));
    assert!(ready.is_ready_for(&command(2, "register", &["c"])));
    assert!(ready.is_ready_for(&standard(Some("C"), Some("t"), Some("U"))));
    assert!(!ready.is_ready_for(&standard(None, Some("t"), Some("U"))));
    assert!(!ready.is_ready_for(&standard(Some("C"), None, Some("U"))));
    assert!(!ready.is_ready_for(&standard(Some("C"), Some("t"), None)));
    assert!(ready.is_ready_for(&Input::Registered(1, AccessReply::Granted(Some(s("t"))))));
    assert!(!ready.is_ready_for(&Input::Registered(1, AccessReply::Granted(None))));
    assert!(ready.is_ready_for(&Input::Registered(1, AccessReply::InvalidCode)));
    let no_secret = Settings { slack_secret: None, ..settings() };
    let (gateway, _rx) = gateway_with(no_secret, None);
    assert!(gateway.is_ready_for(&new_channel()));
    assert!(!gateway.is_ready_for(&command(2, "register", &["c"])));
    assert!(gateway.is_ready_for(&command(2, "register", &[])));
    let no_id = Settings { slack_client_id: None, ..settings() };
    let (mut gateway, _rx) = gateway_with(no_id, None);
    assert!(!gateway.is_ready_for(&new_channel()));
    assert!(gateway.on_login(Ok(())).is_ok());
    assert!(gateway.is_ready_for(&new_channel()));
}
