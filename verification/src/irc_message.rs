//! The part of the IRC protocol that the gateway speaks.

use crate::text::{option_view, views};
use vstd::prelude::*;

verus! {

/// The numeric replies that the gateway gives.
#[allow(non_camel_case_types)]
#[derive(Debug, Clone, Copy, PartialEq, Eq)]
pub enum Response {
    RPL_WELCOME,
    RPL_YOURHOST,
    RPL_CREATED,
    RPL_MYINFO,
    ERR_NOMOTD,
}

/// An IRC command with its arguments.
#[derive(Debug)]
pub enum Command {
    PASS(String),
    NICK(String),
    /// The recipient and the text.
    PRIVMSG(String, String),
    PING(String, Option<String>),
    PONG(String, Option<String>),
    Response(Response, Vec<String>),
    /// Any command that the gateway has no use for.
    Other,
}

pub enum CommandView {
    PASS(Seq<char>),
    NICK(Seq<char>),
    PRIVMSG(Seq<char>, Seq<char>),
    PING(Seq<char>, Option<Seq<char>>),
    PONG(Seq<char>, Option<Seq<char>>),
    Response(Response, Seq<Seq<char>>),
    Other,
}

impl View for Command {
    type V = CommandView;

    open spec fn view(&self) -> CommandView {
        match self {
            Command::PASS(pass) => CommandView::PASS(pass@),
            Command::NICK(nick) => CommandView::NICK(nick@),
            Command::PRIVMSG(to, text) => CommandView::PRIVMSG(to@, text@),
            Command::PING(server1, server2) => CommandView::PING(server1@, option_view(*server2)),
            Command::PONG(server1, server2) => CommandView::PONG(server1@, option_view(*server2)),
            Command::Response(response, args) => CommandView::Response(*response, views(args@)),
            Command::Other => CommandView::Other,
        }
    }
}

/// An IRC message: who it comes from, and the command.
#[derive(Debug)]
pub struct IrcMessage {
    pub prefix: Option<String>,
    pub command: Command,
}

pub struct IrcMessageView {
    pub prefix: Option<Seq<char>>,
    pub command: CommandView,
}

impl View for IrcMessage {
    type V = IrcMessageView;

    open spec fn view(&self) -> IrcMessageView {
        IrcMessageView { prefix: option_view(self.prefix), command: self.command@ }
    }
}

/// The views of a list of messages.
pub open spec fn message_views(messages: Seq<IrcMessage>) -> Seq<IrcMessageView> {
    messages.map_values(|m: IrcMessage| m@)
}

/// A private message.
pub open spec fn privmsg(from: Seq<char>, to: Seq<char>, text: Seq<char>) -> IrcMessageView {
    IrcMessageView { prefix: Some(from), command: CommandView::PRIVMSG(to, text) }
}

/// A numeric reply of a server.
pub open spec fn rpl(
    hostname: Seq<char>,
    response: Response,
    args: Seq<Seq<char>>,
) -> IrcMessageView {
    IrcMessageView { prefix: Some(hostname), command: CommandView::Response(response, args) }
}

/// The answer to a command, if it is one that has to be answered at once.
pub open spec fn pong(command: CommandView) -> Option<IrcMessageView> {
    match command {
        CommandView::PING(server1, server2) => Some(
            IrcMessageView { prefix: None, command: CommandView::PONG(server1, server2) },
        ),
        _ => None,
    }
}

/// A list with one more message, if there is one.
pub open spec fn with_message(
    messages: Seq<IrcMessageView>,
    message: Option<IrcMessageView>,
) -> Seq<IrcMessageView> {
    match message {
        Some(message) => messages.push(message),
        None => messages,
    }
}

/// Collects messages that are to be written to a client, in order.
pub struct IrcWriter {
    writer: Vec<IrcMessage>,
}

impl View for IrcWriter {
    type V = Seq<IrcMessageView>;

    closed spec fn view(&self) -> Seq<IrcMessageView> {
        message_views(self.writer@)
    }
}

impl IrcWriter {
    /// Goes on after the messages that are there already.
    pub fn new(writer: Vec<IrcMessage>) -> (res: IrcWriter)
        ensures
            res@ == message_views(writer@),
    {
        IrcWriter { writer }
    }

    fn push(self, message: IrcMessage) -> (res: IrcWriter)
        ensures
            res@ == self@.push(message@),
    {
        let mut writer = self.writer;
        writer.push(message);
        assert(message_views(writer@) =~= self@.push(message@));
        IrcWriter { writer }
    }

    /// Writes a private message.
    pub fn privmsg(self, from: String, to: String, msg: String) -> (res: IrcWriter)
        ensures
            res@ == self@.push(privmsg(from@, to@, msg@)),
    {
        self.push(IrcMessage { prefix: Some(from), command: Command::PRIVMSG(to, msg) })
    }

    /// Writes a numeric reply.
    pub fn rpl(self, hostname: String, response: Response, args: Vec<String>) -> (res: IrcWriter)
        ensures
            res@ == self@.push(rpl(hostname@, response, views(args@))),
    {
        self.push(IrcMessage { prefix: Some(hostname), command: Command::Response(response, args) })
    }

    /// Answers a PING; any other command is not answered.
    pub fn pong(self, ping: Command) -> (res: IrcWriter)
        ensures
            res@ == with_message(self@, pong(ping@)),
    {
        if let Command::PING(server1, server2) = ping {
            self.push(IrcMessage { prefix: None, command: Command::PONG(server1, server2) })
        } else {
            self
        }
    }

    /// The messages.
    pub fn into(self) -> (res: Vec<IrcMessage>)
        ensures
            message_views(res@) == self@,
    {
        self.writer
    }
}

} // verus!
