//! IRC messages as lines of text.

use crate::irc_gateway::Received;
use crate::irc_message::{Command, CommandView, IrcMessage, IrcMessageView, Response};
use crate::text::{copy_strings, join, option_view, same, split_once, views};
use irc::proto;
use vstd::prelude::*;

verus! {

/// What a line means: a message, or why it is none.
pub uninterp spec fn parsed(line: Seq<char>) -> Result<IrcMessageView, Seq<char>>;

/// Not proved here: reading an `irc::proto::Message` from a string depends on
/// that string alone. What comes of it, with every command that the gateway has
/// no use for as `Other`, and with a failure as its debugging text, is what
/// `parsed` stands for.
#[verifier::external_body]
fn parse(line: &str) -> (res: Result<IrcMessage, String>)
    ensures
        match res {
            Ok(message) => parsed(line@) == Ok::<IrcMessageView, Seq<char>>(message@),
            Err(e) => parsed(line@) == Err::<IrcMessageView, Seq<char>>(e@),
        },
{
    let message = line.parse::<proto::Message>().map_err(|e| format!("{:?}", e))?;
    let command = match message.command {
        proto::Command::PASS(pass) => Command::PASS(pass),
        proto::Command::NICK(nick) => Command::NICK(nick),
        proto::Command::PRIVMSG(to, text) => Command::PRIVMSG(to, text),
        proto::Command::PING(server1, server2) => Command::PING(server1, server2),
        proto::Command::PONG(server1, server2) => Command::PONG(server1, server2),
        _ => Command::Other,
    };
    Ok(IrcMessage { prefix: message.prefix.map(|prefix| prefix.to_string()), command })
}

/// Arguments with a space between each two.
pub open spec fn spaced(args: Seq<Seq<char>>) -> Seq<char>
    decreases args.len(),
{
    if args.len() == 0 {
        Seq::empty()
    } else if args.len() == 1 {
        args[0]
    } else {
        spaced(args.drop_last()) + seq![' '] + args.last()
    }
}

/// The last argument of a command, marked with a colon if it is empty or has a
/// space in it.
pub open spec fn marked(last: Seq<char>) -> Seq<char> {
    if last.len() == 0 || last.contains(' ') {
        seq![':'] + last
    } else {
        last
    }
}

/// The arguments of a command, each after a space.
pub open spec fn arguments(args: Seq<Seq<char>>) -> Seq<char> {
    if args.len() == 0 {
        Seq::empty()
    } else {
        let middle = spaced(args.drop_last());
        (if middle.len() == 0 {
            middle
        } else {
            seq![' '] + middle
        }) + seq![' '] + marked(args.last())
    }
}

/// A message as text.
pub open spec fn rendered(
    prefix: Option<Seq<char>>,
    command: Seq<char>,
    args: Seq<Seq<char>>,
) -> Seq<char> {
    (match prefix {
        Some(prefix) => seq![':'] + prefix + seq![' '],
        None => Seq::empty(),
    }) + command + arguments(args) + seq!['\r', '\n']
}

/// Not proved here: `irc::proto::Message::to_string`, for a message without tags
/// and with its command as a word and arguments, puts these parts together, and
/// ends with a line break.
#[verifier::external_body]
fn render(prefix: Option<String>, command: String, args: Vec<String>) -> (res: String)
    ensures
        res@ == rendered(option_view(prefix), command@, views(args@)),
{
    let prefix = prefix.map(proto::Prefix::ServerName);
    let command = proto::Command::Raw(command, args);
    proto::Message { tags: None, prefix, command }.to_string()
}

/// The characters that end a line.
pub open spec fn is_line_break(c: char) -> bool {
    c == '\r' || c == '\n'
}

/// Where the first line of a text ends, or the length of the text.
pub open spec fn line_end(s: Seq<char>) -> nat
    decreases s.len(),
{
    if s.len() == 0 || is_line_break(s[0]) {
        0
    } else {
        1 + line_end(s.drop_first())
    }
}

/// The first line of a text, with the line break after it.
pub open spec fn first_line(s: Seq<char>) -> Seq<char> {
    let end = line_end(s) as int;
    if end >= s.len() {
        s
    } else if s[end] == '\r' && end + 1 < s.len() && s[end + 1] == '\n' {
        s.take(end + 2)
    } else {
        s.take(end + 1)
    }
}

/// Not proved here: `irc::proto::IrcCodec::sanitize` cuts a text off after the
/// first line break.
#[verifier::external_body]
fn sanitize(data: String) -> (res: String)
    ensures
        res@ == first_line(data@),
{
    proto::IrcCodec::sanitize(data)
}

/// The number of a reply.
pub open spec fn numeric(response: Response) -> Seq<char> {
    match response {
        Response::RPL_WELCOME => "001"@,
        Response::RPL_YOURHOST => "002"@,
        Response::RPL_CREATED => "003"@,
        Response::RPL_MYINFO => "004"@,
        Response::ERR_NOMOTD => "422"@,
    }
}

/// A text as the last argument of a command. A colon in front of it would be
/// taken for the mark, unless it is marked itself.
pub open spec fn as_last(text: Seq<char>) -> Seq<char> {
    if text.len() > 0 && text[0] == ':' && !text.contains(' ') {
        seq![':'] + text
    } else {
        text
    }
}

/// The last argument of a reply as it is given, without the mark in front.
pub open spec fn unmarked(arg: Seq<char>) -> Seq<char> {
    if arg.len() > 0 && arg[0] == ':' {
        arg.drop_first()
    } else {
        arg
    }
}

/// The word and the arguments of a command, if it can be written.
pub open spec fn fields(command: CommandView) -> Option<(Seq<char>, Seq<Seq<char>>)> {
    match command {
        CommandView::PASS(pass) => Some(("PASS"@, seq![as_last(pass)])),
        CommandView::NICK(nick) => Some(("NICK"@, seq![as_last(nick)])),
        CommandView::PRIVMSG(to, text) => Some(("PRIVMSG"@, seq![to, as_last(text)])),
        CommandView::PING(server1, None) => Some(("PING"@, seq![as_last(server1)])),
        CommandView::PING(server1, Some(server2)) => Some(
            ("PING"@, seq![server1, as_last(server2)]),
        ),
        CommandView::PONG(server1, None) => Some(("PONG"@, seq![as_last(server1)])),
        CommandView::PONG(server1, Some(server2)) => Some(
            ("PONG"@, seq![server1, as_last(server2)]),
        ),
        CommandView::Response(response, args) => Some(
            (
                numeric(response),
                if args.len() == 0 {
                    args
                } else {
                    args.drop_last().push(as_last(unmarked(args.last())))
                },
            ),
        ),
        CommandView::Other => None,
    }
}

/// The line that a message is written as, if it can be written.
pub open spec fn written(message: IrcMessageView) -> Option<Seq<char>> {
    match fields(message.command) {
        Some((command, args)) => Some(first_line(rendered(message.prefix, command, args))),
        None => None,
    }
}

/// What came from a client, given what was made of a line.
pub open spec fn is_received(outcome: Result<IrcMessage, String>, res: Received) -> bool {
    res == match outcome {
        Ok(message) => Received::Message(message),
        Err(e) => Received::Failed(e),
    }
}

/// What came from a client that sent this line.
pub open spec fn is_read(line: Seq<char>, res: Received) -> bool {
    match parsed(line) {
        Ok(message) => res matches Received::Message(m) && m@ == message,
        Err(text) => res matches Received::Failed(e) && e@ == text,
    }
}

/// Turns what was made of a line into what came from a client.
pub fn received(outcome: Result<IrcMessage, String>) -> (res: Received)
    ensures
        is_received(outcome, res),
{
    match outcome {
        Ok(message) => Received::Message(message),
        Err(e) => Received::Failed(e),
    }
}

/// Reads a line that came from a client.
pub fn read_line(line: &str) -> (res: Received)
    ensures
        is_read(line@, res),
{
    received(parse(line))
}

/// What follows the colon in front of a text, if there is one.
fn after_colon(text: &str) -> (res: Option<String>)
    ensures
        match res {
            Some(rest) => text@.len() > 0 && text@[0] == ':' && rest@ == text@.drop_first(),
            None => !(text@.len() > 0 && text@[0] == ':'),
        },
{
    proof {
        reveal_strlit("");
    }
    match split_once(text, ':') {
        Some((before, after)) => {
            assert(text@[before@.len() as int] == ':');
            if same(before.as_str(), "") {
                assert(after@ =~= text@.drop_first());
                Some(after)
            } else {
                assert(before@.len() > 0) by {
                    if before@.len() == 0 {
                        assert(before@ =~= ""@);
                    }
                }
                assert(text@[0] == before@[0] && before@.contains(before@[0]));
                None
            }
        },
        None => None,
    }
}

/// Whether there is a space in a text.
fn has_space(text: &str) -> (res: bool)
    ensures
        res == text@.contains(' '),
{
    match split_once(text, ' ') {
        Some((before, _)) => {
            assert(text@[before@.len() as int] == ' ');
            true
        },
        None => false,
    }
}

/// Makes a text the last argument of a command.
fn last_argument(text: &str) -> (res: String)
    ensures
        res@ == as_last(text@),
{
    proof {
        reveal_strlit(":");
    }
    match after_colon(text) {
        Some(_) => if has_space(text) {
            text.to_string()
        } else {
            let res = join(":", text);
            assert(res@ =~= seq![':'] + text@);
            res
        },
        None => text.to_string(),
    }
}

/// The number of a reply.
fn number(response: Response) -> (res: String)
    ensures
        res@ == numeric(response),
{
    match response {
        Response::RPL_WELCOME => "001".to_string(),
        Response::RPL_YOURHOST => "002".to_string(),
        Response::RPL_CREATED => "003".to_string(),
        Response::RPL_MYINFO => "004".to_string(),
        Response::ERR_NOMOTD => "422".to_string(),
    }
}

/// One argument.
fn one(text: &str) -> (res: Vec<String>)
    ensures
        views(res@) == seq![as_last(text@)],
{
    let mut args: Vec<String> = Vec::new();
    args.push(last_argument(text));
    assert(views(args@) =~= seq![as_last(text@)]);
    args
}

/// Two arguments.
fn two(first: &str, last: &str) -> (res: Vec<String>)
    ensures
        views(res@) == seq![first@, as_last(last@)],
{
    let mut args: Vec<String> = Vec::new();
    args.push(first.to_string());
    args.push(last_argument(last));
    assert(views(args@) =~= seq![first@, as_last(last@)]);
    args
}

/// One argument, or two.
fn one_or_two(first: &str, second: &Option<String>) -> (res: Vec<String>)
    ensures
        views(res@) == match option_view(*second) {
            Some(second) => seq![first@, as_last(second)],
            None => seq![as_last(first@)],
        },
{
    match second {
        Some(second) => two(first, second.as_str()),
        None => one(first),
    }
}

/// The arguments of a reply.
fn reply_arguments(args: &Vec<String>) -> (res: Vec<String>)
    ensures
        views(res@) == if args@.len() == 0 {
            views(args@)
        } else {
            views(args@).drop_last().push(as_last(unmarked(views(args@).last())))
        },
{
    let mut res = copy_strings(args);
    match res.pop() {
        Some(last) => {
            assert(last@ == views(args@).last()) by {
                assert(views(args@).last() == views(args@)[args@.len() - 1]);
            }
            let text = match after_colon(last.as_str()) {
                Some(rest) => rest,
                None => last,
            };
            assert(text@ == unmarked(views(args@).last()));
            let last = last_argument(text.as_str());
            let ghost before = res@;
            res.push(last);
            assert(views(before) =~= views(args@).drop_last());
            assert(views(res@) =~= views(before).push(last@));
        },
        None => {},
    }
    res
}

/// Writes a message as a line, if it can be written.
pub fn write_line(message: &IrcMessage) -> (res: Option<String>)
    ensures
        option_view(res) == written(message@),
{
    let (command, args) = match &message.command {
        Command::PASS(pass) => ("PASS".to_string(), one(pass.as_str())),
        Command::NICK(nick) => ("NICK".to_string(), one(nick.as_str())),
        Command::PRIVMSG(to, text) => ("PRIVMSG".to_string(), two(to.as_str(), text.as_str())),
        Command::PING(server1, server2) => (
            "PING".to_string(),
            one_or_two(server1.as_str(), server2),
        ),
        Command::PONG(server1, server2) => (
            "PONG".to_string(),
            one_or_two(server1.as_str(), server2),
        ),
        Command::Response(response, args) => (number(*response), reply_arguments(args)),
        Command::Other => {
            return None;
        },
    };
    let prefix = match &message.prefix {
        Some(prefix) => Some(prefix.clone()),
        None => None,
    };
    Some(sanitize(render(prefix, command, args)))
}

} // verus!
