use futures::sync::mpsc;
use futures::Stream;
use slack_irc::hub::{sent, ChannelHandle, ChannelSender, Error, Event, Hub, Message, Receiver};

fn new_hub() -> (Hub, Receiver) {
    let (tx, rx) = mpsc::unbounded();
    (Hub::new(tx), rx)
}

fn join(hub: &mut Hub) -> (ChannelSender, Receiver) {
    match hub.join() {
        Ok(joined) => joined,
        Err(e) => panic!("{:?}", e),
    }
}

/// Everything in a queue whose sending handles are all gone.
fn drain(rx: Receiver) -> Vec<Event> {
    rx.wait().map(|e| e.unwrap()).collect()
}

fn text(message: &str) -> Message {
    Message::AdminMessage(message.to_string())
}

fn is_text(event: &Event, from: ChannelHandle, to: Option<ChannelHandle>, expected: &str) -> bool {
    event.from == from
        && event.to == to
        && match &event.message {
            Message::AdminMessage(text) => text == expected,
            _ => false,
        }
}

fn is_news(event: &Event, from: ChannelHandle) -> bool {
    event.from == from && event.to.is_none() && matches!(event.message, Message::NewChannel)
}

#[test]
fn handles_count_up_from_one() {
    let (mut hub, _rx) = new_hub();
    let (a, _arx) = join(&mut hub);
    let (b, _brx) = join(&mut hub);
    let (c, _crx) = join(&mut hub);
    assert_eq!((a.handle(), b.handle(), c.handle()), (1, 2, 3));
    assert!(hub.has_room());
}

#[test]
fn joining_is_told_to_the_others_only() {
    let (mut hub, _rx) = new_hub();
    let (_a, arx) = join(&mut hub);
    let (_b, brx) = join(&mut hub);
    let (_c, crx) = join(&mut hub);
    drop(hub);
    let a = drain(arx);
    assert_eq!(a.len(), 2);
    assert!(is_news(&a[0], 2));
    assert!(is_news(&a[1], 3));
    let b = drain(brx);
    assert_eq!(b.len(), 1);
    assert!(is_news(&b[0], 3));
    assert_eq!(drain(crx).len(), 0);
}

#[test]
fn a_channel_of_its_own_queue_can_be_added() {
    let (mut hub, hub_rx) = new_hub();
    let (tx, rx) = mpsc::unbounded();
    let mut sender = hub.add_channel(tx);
    assert_eq!(sender.handle(), 1);
    hub.broadcast(7, text("all"));
    assert!(sender.broadcast(text("up")).is_ok());
    drop(hub);
    drop(sender);
    let events = drain(rx);
    assert_eq!(events.len(), 1);
    assert!(is_text(&events[0], 7, None, "all"));
    let up = drain(hub_rx);
    assert_eq!(up.len(), 1);
    assert!(is_text(&up[0], 1, None, "up"));
}

#[test]
fn a_broadcast_reaches_everybody_else() {
    let (mut hub, _rx) = new_hub();
    let (_a, arx) = join(&mut hub);
    let (_b, brx) = join(&mut hub);
    let (_c, crx) = join(&mut hub);
    hub.broadcast(2, text("hi"));
    drop(hub);
    let a = drain(arx);
    assert_eq!(a.len(), 3);
    assert!(is_text(&a[2], 2, None, "hi"));
    assert_eq!(drain(brx).len(), 1);
    let c = drain(crx);
    assert_eq!(c.len(), 1);
    assert!(is_text(&c[0], 2, None, "hi"));
}

#[test]
fn a_broadcast_drops_channels_that_are_gone() {
    let (mut hub, _rx) = new_hub();
    let (_a, arx) = join(&mut hub);
    let (_b, brx) = join(&mut hub);
    drop(brx);
    hub.broadcast(1, text("anyone?"));
    assert!(matches!(
        hub.send_to(1, 2, text("hello?")),
        Err(Error::ChannelDoesNotExist(2))
    ));
    // The sender of a broadcast stays, whether it can be reached or not.
    drop(arx);
    hub.broadcast(1, text("still here"));
    assert!(matches!(hub.send_to(2, 1, text("no")), Err(Error::SendError)));
}

#[test]
fn a_handle_is_used_again_only_after_its_channel_left() {
    let (mut hub, _rx) = new_hub();
    let (a, _arx) = join(&mut hub);
    let (b, brx) = join(&mut hub);
    drop(brx);
    let (c, _crx) = join(&mut hub);
    let (d, _drx) = join(&mut hub);
    assert_eq!((a.handle(), b.handle(), c.handle(), d.handle()), (1, 2, 3, 4));
    let (mut hub, _rx) = new_hub();
    let (_a, _arx) = join(&mut hub);
    let (_b, brx) = join(&mut hub);
    drop(brx);
    hub.broadcast(1, text("x"));
    let (c, _crx) = join(&mut hub);
    assert_eq!(c.handle(), 2);
}

#[test]
fn sending_to_one_channel() {
    let (mut hub, _rx) = new_hub();
    let (_a, arx) = join(&mut hub);
    let (_b, brx) = join(&mut hub);
    assert!(hub.send_to(2, 1, text("psst")).is_ok());
    drop(hub);
    let a = drain(arx);
    assert_eq!(a.len(), 2);
    assert!(is_text(&a[1], 2, Some(1), "psst"));
    assert_eq!(drain(brx).len(), 0);
}

#[test]
fn sending_to_nobody() {
    let (mut hub, _rx) = new_hub();
    let (_a, _arx) = join(&mut hub);
    assert!(matches!(
        hub.send_to(1, 9, text("psst")),
        Err(Error::ChannelDoesNotExist(9))
    ));
}

#[test]
fn a_channel_that_cannot_be_sent_to_stays_until_it_is_routed_to() {
    let (mut hub, _rx) = new_hub();
    let (_a, _arx) = join(&mut hub);
    let (_b, brx) = join(&mut hub);
    drop(brx);
    assert!(matches!(hub.send_to(1, 2, text("1")), Err(Error::SendError)));
    assert!(matches!(hub.send_to(1, 2, text("2")), Err(Error::SendError)));
    hub.route(Event { from: 1, to: Some(2), message: text("3") });
    assert!(matches!(
        hub.send_to(1, 2, text("4")),
        Err(Error::ChannelDoesNotExist(2))
    ));
}

#[test]
fn outcomes_of_sending() {
    assert!(sent(true).is_ok());
    assert!(matches!(sent(false), Err(Error::SendError)));
    let (mut hub, _rx) = new_hub();
    let (_a, _arx) = join(&mut hub);
    hub.on_sent(1, Ok(()));
    hub.on_sent(1, Err(Error::ChannelDoesNotExist(1)));
    hub.on_sent(1, Err(Error::WrongPassword));
    assert!(hub.send_to(2, 1, text("x")).is_ok());
    hub.on_sent(1, Err(Error::SendError));
    assert!(matches!(
        hub.send_to(2, 1, text("x")),
        Err(Error::ChannelDoesNotExist(1))
    ));
}

#[test]
fn routing_to_all_and_to_one() {
    let (mut hub, _rx) = new_hub();
    let (_a, arx) = join(&mut hub);
    let (_b, brx) = join(&mut hub);
    hub.route(Event { from: 1, to: None, message: text("all") });
    hub.route(Event { from: 2, to: Some(1), message: text("one") });
    hub.route(Event { from: 2, to: Some(5), message: text("nobody") });
    drop(hub);
    let a = drain(arx);
    assert_eq!(a.len(), 2);
    assert!(is_news(&a[0], 2));
    assert!(is_text(&a[1], 2, Some(1), "one"));
    let b = drain(brx);
    assert_eq!(b.len(), 1);
    assert!(is_text(&b[0], 1, None, "all"));
}

#[test]
fn a_channel_speaks_under_its_own_handle() {
    let (mut hub, hub_rx) = new_hub();
    let (_a, _arx) = join(&mut hub);
    let (mut b, _brx) = join(&mut hub);
    assert!(b.broadcast(text("to all")).is_ok());
    assert!(b.send_to(1, text("to one")).is_ok());
    drop(hub);
    drop(_a);
    drop(b);
    let events = drain(hub_rx);
    assert_eq!(events.len(), 2);
    assert!(is_text(&events[0], 2, None, "to all"));
    assert!(is_text(&events[1], 2, Some(1), "to one"));
}

#[test]
fn a_channel_notices_that_the_hub_is_gone() {
    let (mut hub, hub_rx) = new_hub();
    let (mut a, _arx) = join(&mut hub);
    drop(hub_rx);
    assert!(matches!(a.broadcast(text("x")), Err(Error::SendError)));
    assert!(matches!(a.send_to(2, text("x")), Err(Error::SendError)));
    assert!(matches!(a.broadcast(text("x")), Err(Error::SendError)));
}

#[test]
fn clones_are_equal() {
    let event = Event {
        from: 3,
        to: Some(4),
        message: Message::AdminCommand("c".to_string(), vec!["a".to_string(), "b".to_string()]),
    };
    assert_eq!(format!("{:?}", event.clone()), format!("{:?}", event));
    for message in [
        Message::NewChannel,
        Message::Message("u".to_string(), "c".to_string(), "t".to_string()),
        text("x"),
        Message::Error("e".to_string()),
    ] {
        assert_eq!(format!("{:?}", message.clone()), format!("{:?}", message));
    }
}
