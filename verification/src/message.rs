//! What travels through a hub.

use crate::text::{copy_strings, views};
use vstd::prelude::*;

verus! {

pub type ChannelHandle = usize;

/// What travels through a hub.
#[derive(Debug)]
pub enum Message {
    /// A channel has joined.
    NewChannel,
    /// A conversation message: who wrote it, where, and the text.
    Message(String, String, String),
    /// A text for the user from the gateway itself.
    AdminMessage(String),
    /// A command of the user to the gateway, with its arguments.
    AdminCommand(String, Vec<String>),
    /// Something went wrong.
    Error(String),
}

pub enum MessageView {
    NewChannel,
    Message(Seq<char>, Seq<char>, Seq<char>),
    AdminMessage(Seq<char>),
    AdminCommand(Seq<char>, Seq<Seq<char>>),
    Error(Seq<char>),
}

impl View for Message {
    type V = MessageView;

    open spec fn view(&self) -> MessageView {
        match self {
            Message::NewChannel => MessageView::NewChannel,
            Message::Message(from, to, text) => MessageView::Message(from@, to@, text@),
            Message::AdminMessage(text) => MessageView::AdminMessage(text@),
            Message::AdminCommand(cmd, args) => MessageView::AdminCommand(cmd@, views(args@)),
            Message::Error(text) => MessageView::Error(text@),
        }
    }
}

impl Clone for Message {
    fn clone(&self) -> (res: Self)
        ensures
            res@ == self@,
    {
        match self {
            Message::NewChannel => Message::NewChannel,
            Message::Message(from, to, text) => Message::Message(
                from.clone(),
                to.clone(),
                text.clone(),
            ),
            Message::AdminMessage(text) => Message::AdminMessage(text.clone()),
            Message::AdminCommand(cmd, args) => Message::AdminCommand(
                cmd.clone(),
                copy_strings(args),
            ),
            Message::Error(text) => Message::Error(text.clone()),
        }
    }
}

/// A message on its way: the channel it comes from, and the channel it is for
/// or, without one, every other channel.
#[derive(Debug)]
pub struct Event {
    pub from: ChannelHandle,
    pub to: Option<ChannelHandle>,
    pub message: Message,
}

pub struct EventView {
    pub from: ChannelHandle,
    pub to: Option<ChannelHandle>,
    pub message: MessageView,
}

impl View for Event {
    type V = EventView;

    open spec fn view(&self) -> EventView {
        EventView { from: self.from, to: self.to, message: self.message@ }
    }
}

impl Clone for Event {
    fn clone(&self) -> (res: Self)
        ensures
            res@ == self@,
    {
        Event { from: self.from, to: self.to, message: self.message.clone() }
    }
}

} // verus!
