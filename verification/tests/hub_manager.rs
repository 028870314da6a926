use futures::Stream;
use slack_irc::account::{AuthenticationInfo, HubInfo, HubSettings, StoredInfo};
use slack_irc::hub::{Error, Event, Message, Receiver};
use slack_irc::hub_manager::{HubManager, Lookup, LookupStep};
use slack_irc::irc_gateway::{Error as IrcError, IrcGateway};
use slack_irc::password::accepts;
use slack_irc::settings::Settings;

/// The hash of `correctbatteryhorsestapler`.
const HASHED: &str = "$2a$04$n4Uy0eSnMfvnESYL.bLwuuj0U/ETSsoTpRT9GVk5bektyVVa5xnIi";

fn settings() -> Settings {
    Settings {
        database: None,
        irc_botnick: Some("bot".to_string()),
        irc_host: Some("irc.example".to_string()),
        irc_listen: None,
        slack_client_id: Some("id".to_string()),
        slack_secret: None,
    }
}

fn auth(pass: &str) -> AuthenticationInfo {
    AuthenticationInfo {
        workspace: "team".to_string(),
        nick: "ann".to_string(),
        pass: pass.to_string(),
    }
}

fn info(id: u32) -> HubInfo {
    HubInfo {
        id,
        workspace: "team".to_string(),
        nick: "ann".to_string(),
        settings: HubSettings { pass: HASHED.to_string(), token: None },
    }
}

fn drain(rx: Receiver) -> Vec<Event> {
    rx.wait().map(|e| e.unwrap()).collect()
}

#[test]
fn passwords_are_checked_against_their_hash() {
    assert!(accepts("correctbatteryhorsestapler", HASHED));
    assert!(!accepts("wrong", HASHED));
    assert!(!accepts(HASHED, HASHED));
    assert!(!accepts("correctbatteryhorsestapler", "correctbatteryhorsestapler"));
    assert!(!accepts("correctbatteryhorsestapler", ""));
    assert!(!accepts("correct\0battery", HASHED));
}

#[test]
fn a_known_account_is_used_as_it_is() {
    match HubManager::find_or_create(&auth("x"), Lookup::First, Some(info(7))) {
        LookupStep::Known(found) => {
            assert_eq!(found.id, 7);
            assert_eq!(found.settings.pass, HASHED);
        }
        step => panic!("{:?}", step),
    }
    assert!(matches!(
        HubManager::find_or_create(&auth("x"), Lookup::AfterInsert, Some(info(7))),
        LookupStep::Known(_)
    ));
}

#[test]
fn a_new_account_accepts_its_password() {
    let auth_info = auth("secret");
    let inserted = match HubManager::find_or_create(&auth_info, Lookup::First, None) {
        LookupStep::Insert(inserted) => inserted,
        step => panic!("{:?}", step),
    };
    assert_eq!(inserted.id, 0);
    assert_eq!(inserted.workspace, "team");
    assert_eq!(inserted.nick, "ann");
    assert_eq!(inserted.settings.token, None);
    assert_ne!(inserted.settings.pass, "secret");
    assert!(inserted.settings.pass.starts_with("$2b$12$"));
    assert!(!accepts("other", &inserted.settings.pass));
    let stored = HubInfo { id: 3, ..inserted };
    let mut manager = HubManager::new(settings());
    match manager.connect(&auth_info, stored) {
        Ok(connection) => assert_eq!(connection.hub, 3),
        Err(e) => panic!("{:?}", e),
    }
}

#[test]
fn a_password_with_a_nul_cannot_be_hashed() {
    match HubManager::find_or_create(&auth("a\0b"), Lookup::First, None) {
        LookupStep::HashFailed(e) => assert!(e.is_refusal()),
        step => panic!("{:?}", step),
    }
}

#[test]
fn an_account_for_a_first_login() {
    let account = HubInfo::first_login(&auth("x"), "hash".to_string());
    assert_eq!(account.id, 0);
    assert_eq!(account.workspace, "team");
    assert_eq!(account.nick, "ann");
    assert_eq!(account.settings.pass, "hash");
    assert_eq!(account.settings.token, None);
}

#[test]
fn a_wrong_password_changes_nothing() {
    let mut manager = HubManager::new(settings());
    assert!(matches!(manager.connect(&auth("wrong"), info(1)), Err(Error::WrongPassword)));
    assert!(!manager.has_room(1));
    assert!(matches!(manager.enter(false, info(1)), Err(Error::WrongPassword)));
    assert!(!manager.has_room(1));
}

#[test]
fn the_first_to_enter_starts_the_gateway() {
    let mut manager = HubManager::new(settings());
    let connection = match manager.connect(&auth("correctbatteryhorsestapler"), info(5)) {
        Ok(connection) => connection,
        Err(e) => panic!("{:?}", e),
    };
    assert_eq!(connection.hub, 5);
    let mut link = connection.gateway.unwrap();
    assert_eq!(link.sender.handle(), 1);
    assert_eq!(link.settings.slack_client_id, Some("id".to_string()));
    assert_eq!(link.info.info().id, 5);
    assert_eq!(link.info.token(), None);
    assert!(manager.has_room(5));
    assert!(link.sender.broadcast(Message::AdminMessage("up".to_string())).is_ok());
    drop(manager);
    drop(link.sender);
    let up = drain(link.hub_rx);
    assert_eq!(up.len(), 1);
    assert_eq!((up[0].from, up[0].to), (1, None));
    assert_eq!(drain(link.gateway_rx).len(), 0);
}

#[test]
fn entering_twice_is_entering_one_hub() {
    let mut manager = HubManager::new(settings());
    let first = manager.enter(true, info(5)).ok().unwrap();
    let link = first.gateway.unwrap();
    let (sender, _rx) = manager.join(5).ok().unwrap();
    assert_eq!(sender.handle(), 2);
    let second = manager.enter(true, info(5)).ok().unwrap();
    assert_eq!(second.hub, 5);
    assert!(second.gateway.is_none());
    let (sender, _rx2) = manager.join(5).ok().unwrap();
    assert_eq!(sender.handle(), 3);
    drop(manager);
    let events = drain(link.gateway_rx);
    assert_eq!(events.len(), 2);
    assert_eq!((events[0].from, events[1].from), (2, 3));
    assert!(events.iter().all(|e| matches!(e.message, Message::NewChannel)));
}

#[test]
fn a_hub_stays_in_use() {
    let mut manager = HubManager::new(settings());
    let first = manager.enter(true, info(5)).ok().unwrap().gateway.unwrap();
    assert!(manager.enter(true, info(6)).ok().unwrap().gateway.is_some());
    let (_s, rx) = manager.join(5).ok().unwrap();
    drop(rx);
    drop(first.gateway_rx);
    manager.route(5, Event { from: 9, to: None, message: Message::NewChannel });
    assert!(manager.enter(false, info(5)).is_err());
    let again = manager.enter(true, info(5)).ok().unwrap();
    assert_eq!(again.hub, 5);
    assert!(again.gateway.is_none());
    assert!(manager.enter(true, info(6)).ok().unwrap().gateway.is_none());
    assert!(manager.enter(true, info(7)).ok().unwrap().gateway.is_some());
}

#[test]
fn the_hub_itself_says_nothing() {
    let mut manager = HubManager::new(settings());
    let link = manager.enter(true, info(5)).ok().unwrap().gateway.unwrap();
    let (mut sender, rx) = manager.join(5).ok().unwrap();
    assert!(sender.broadcast(Message::AdminMessage("once".to_string())).is_ok());
    manager.route(5, Event { from: 2, to: None, message: Message::NewChannel });
    manager.route(5, Event { from: 1, to: Some(2), message: Message::NewChannel });
    drop(manager);
    drop(sender);
    drop(link.sender);
    assert_eq!(drain(link.hub_rx).len(), 1);
    assert_eq!(drain(link.gateway_rx).len(), 2);
    assert_eq!(drain(rx).len(), 1);
}

#[test]
fn a_known_account_is_used_whatever_the_password() {
    for pass in ["x", "correctbatteryhorsestapler", "a\0b"] {
        match HubManager::find_or_create(&auth(pass), Lookup::First, Some(info(7))) {
            LookupStep::Known(found) => {
                assert_eq!((found.id, found.settings.pass), (7, HASHED.to_string()));
            }
            step => panic!("{:?}", step),
        }
    }
}

#[test]
fn hubs_are_separate() {
    let mut manager = HubManager::new(settings());
    let one = manager.enter(true, info(1)).ok().unwrap().gateway.unwrap();
    let two = manager.enter(true, info(2)).ok().unwrap().gateway.unwrap();
    let (_s, _r) = manager.join(1).ok().unwrap();
    manager.route(1, Event { from: 2, to: None, message: Message::Error("e".to_string()) });
    manager.route(9, Event { from: 2, to: None, message: Message::Error("e".to_string()) });
    drop(manager);
    assert_eq!(drain(one.gateway_rx).len(), 2);
    assert_eq!(drain(two.gateway_rx).len(), 0);
}

#[test]
fn a_client_joins_its_hub() {
    let mut manager = HubManager::new(settings());
    let membership =
        IrcGateway::join_hub(&mut manager, &auth("correctbatteryhorsestapler"), info(4)).ok().unwrap();
    assert_eq!(membership.connection.hub, 4);
    assert_eq!(membership.hub_tx.handle(), 2);
    let link = membership.connection.gateway.unwrap();
    let again =
        IrcGateway::join_hub(&mut manager, &auth("correctbatteryhorsestapler"), info(4)).ok().unwrap();
    assert!(again.connection.gateway.is_none());
    assert_eq!(again.hub_tx.handle(), 3);
    drop(manager);
    assert_eq!(drain(link.gateway_rx).len(), 2);
    assert_eq!(drain(membership.hub_rx).len(), 1);
    assert_eq!(drain(again.hub_rx).len(), 0);
}

#[test]
fn a_client_with_a_wrong_password_does_not_join() {
    let mut manager = HubManager::new(settings());
    assert!(matches!(
        IrcGateway::join_hub(&mut manager, &auth("wrong"), info(4)),
        Err(IrcError::HubError(Error::WrongPassword))
    ));
    assert!(!manager.has_room(4));
}

#[test]
fn a_token_is_kept() {
    let mut stored = StoredInfo::new(info(8));
    assert_eq!(stored.token(), None);
    stored.set_token("xoxp-1");
    assert_eq!(stored.token(), Some("xoxp-1".to_string()));
    stored.set_token("xoxp-2");
    assert_eq!(stored.token(), Some("xoxp-2".to_string()));
    assert_eq!(stored.info().id, 8);
    assert_eq!(stored.info().workspace, "team");
    assert_eq!(stored.info().nick, "ann");
    assert_eq!(stored.info().settings.pass, HASHED);
    assert_eq!(stored.info().settings.token, Some("xoxp-2".to_string()));
}
