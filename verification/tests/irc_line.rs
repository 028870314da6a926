use slack_irc::irc_gateway::Received;
use slack_irc::irc_line::{read_line, received, write_line};
use slack_irc::irc_message::{Command, IrcMessage, Response};

fn s(text: &str) -> String {
    text.to_string()
}

fn read(line: &str) -> IrcMessage {
    match read_line(line) {
        Received::Message(message) => message,
        Received::Failed(e) => panic!("{}", e),
        Received::Closed => panic!("closed"),
    }
}

fn line(prefix: Option<&str>, command: Command) -> Option<String> {
    write_line(&IrcMessage { prefix: prefix.map(s), command })
}

fn text_line(text: &str) -> String {
    line(None, Command::PRIVMSG(s("ann"), s(text))).unwrap()
}

#[test]
fn commands_are_read() {
    assert!(matches!(read("NICK ann\r\n").command, Command::NICK(n) if n == "ann"));
    assert!(matches!(read("nick :ann\n").command, Command::NICK(n) if n == "ann"));
    assert!(matches!(read("PASS team.secret\r\n").command, Command::PASS(p) if p == "team.secret"));
    assert!(matches!(read("PASS :team.two words\r\n").command,
        Command::PASS(p) if p == "team.two words"));
    assert!(matches!(read("PING one\r\n").command, Command::PING(a, None) if a == "one"));
    assert!(matches!(read("PING one two\r\n").command,
        Command::PING(a, Some(b)) if a == "one" && b == "two"));
    assert!(matches!(read("PONG one\r\n").command, Command::PONG(a, None) if a == "one"));
    match read(":ann!a@host PRIVMSG bot :register  code\r\n") {
        IrcMessage { prefix, command: Command::PRIVMSG(to, text) } => {
            assert_eq!(prefix, Some(s("ann!a@host")));
            assert_eq!((to, text), (s("bot"), s("register  code")));
        }
        other => panic!("{:?}", other),
    }
}

#[test]
fn other_lines_are_read_too() {
    for other in ["USER a 0 * :A B\r\n", "CAP LS 302\r\n", "JOIN #general", "\r\n", "001 x", "PASS"] {
        assert!(matches!(read(other).command, Command::Other), "{}", other);
    }
}

#[test]
fn lines_can_be_wrong() {
    match read_line("") {
        Received::Failed(e) => {
            assert_eq!(e, "InvalidMessage { string: \"\", cause: EmptyMessage }")
        }
        _ => panic!("not failed"),
    }
    assert!(matches!(read_line("MODE ann x\r\n"), Received::Failed(_)));
    assert!(matches!(received(Err(s("bad"))), Received::Failed(e) if e == "bad"));
    let message = IrcMessage { prefix: None, command: Command::Other };
    assert!(matches!(received(Ok(message)),
        Received::Message(IrcMessage { prefix: None, command: Command::Other })));
}

#[test]
fn commands_are_written() {
    assert_eq!(line(Some("isra"), Command::PRIVMSG(s("#general"), s("hello there"))),
        Some(s(":isra PRIVMSG #general :hello there\r\n")));
    assert_eq!(line(None, Command::PONG(s("one"), None)), Some(s("PONG one\r\n")));
    assert_eq!(line(None, Command::PONG(s("one"), Some(s("two")))), Some(s("PONG one two\r\n")));
    assert_eq!(line(None, Command::PING(s("one"), None)), Some(s("PING one\r\n")));
    assert_eq!(line(None, Command::PING(s("one"), Some(s(":2")))), Some(s("PING one ::2\r\n")));
    assert_eq!(line(None, Command::NICK(s("ann"))), Some(s("NICK ann\r\n")));
    assert_eq!(line(None, Command::PASS(s("a b"))), Some(s("PASS :a b\r\n")));
    assert_eq!(line(Some("isra"), Command::Other), None);
}

#[test]
fn replies_are_written() {
    let reply = |response: Response, args: &[&str]| {
        line(Some("irc.example"), Command::Response(response, args.iter().map(|a| s(a)).collect()))
            .unwrap()
    };
    assert_eq!(reply(Response::RPL_WELCOME, &["ann", ":Welcome to IRC"]),
        ":irc.example 001 ann :Welcome to IRC\r\n");
    assert_eq!(reply(Response::RPL_YOURHOST, &["ann", ":here"]), ":irc.example 002 ann here\r\n");
    assert_eq!(reply(Response::RPL_CREATED, &["ann", "::)"]), ":irc.example 003 ann ::)\r\n");
    assert_eq!(reply(Response::RPL_MYINFO, &["ann", "h", "v", "o", "o"]),
        ":irc.example 004 ann h v o o\r\n");
    assert_eq!(reply(Response::ERR_NOMOTD, &["MOTD File is missing"]),
        ":irc.example 422 :MOTD File is missing\r\n");
    assert_eq!(reply(Response::ERR_NOMOTD, &[]), ":irc.example 422\r\n");
}

#[test]
fn texts_arrive_whole() {
    for text in ["hi", "hi there", ":)", ": )", "", " x", "::", "a:b", "ü :ö"] {
        match read(&text_line(text)).command {
            Command::PRIVMSG(to, arrived) => {
                assert_eq!((to, arrived), (s("ann"), s(text)));
            }
            other => panic!("{:?}", other),
        }
    }
}

#[test]
fn a_message_is_one_line() {
    assert_eq!(text_line("one\r\nQUIT"), "PRIVMSG ann one\r\n");
    assert_eq!(text_line("one two\nQUIT\r\n"), "PRIVMSG ann :one two\n");
    assert_eq!(text_line("one\rQUIT"), "PRIVMSG ann one\r");
}
