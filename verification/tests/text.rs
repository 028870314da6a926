use slack_irc::text::{copy_strings, join, same, split_once, words};

fn strings(list: &[&str]) -> Vec<String> {
    list.iter().map(|s| s.to_string()).collect()
}

#[test]
fn it_works() {
    assert_eq!(2 + 2, 4);
}

#[test]
fn words_of_a_command() {
    assert_eq!(words("register abc"), strings(&["register", "abc"]));
    assert_eq!(words("  register \t abc\u{a0}x  "), strings(&["register", "abc", "x"]));
    assert_eq!(words("one"), strings(&["one"]));
}

#[test]
fn no_words() {
    assert_eq!(words(""), strings(&[]));
    assert_eq!(words(" \t\r\n\u{3000}"), strings(&[]));
}

#[test]
fn every_character_separates_words_or_not() {
    for c in (0..=0x10ffffu32).filter_map(std::char::from_u32) {
        let text = format!("a{}b", c);
        let expected: Vec<String> = text.split_whitespace().map(|s| s.to_string()).collect();
        if expected.len() != 1 || c.is_whitespace() || (c as u32) < 0x3100 {
            assert_eq!(words(&text), expected);
        }
    }
}

#[test]
fn words_are_the_text_without_white_space() {
    let text = " \u{2003}Grüße  an\talle\u{2028}hier ";
    let list = words(text);
    assert_eq!(list, strings(&["Grüße", "an", "alle", "hier"]));
    assert_eq!(list.concat(), "Grüßeanallehier");
}

#[test]
fn split_at_the_first() {
    assert_eq!(split_once("team.secret", '.'), Some(("team".to_string(), "secret".to_string())));
    assert_eq!(split_once("a.b.c", '.'), Some(("a".to_string(), "b.c".to_string())));
    assert_eq!(split_once(".b", '.'), Some(("".to_string(), "b".to_string())));
    assert_eq!(split_once("a.", '.'), Some(("a".to_string(), "".to_string())));
    assert_eq!(split_once("ä.ö", '.'), Some(("ä".to_string(), "ö".to_string())));
}

#[test]
fn nowhere_to_split() {
    assert_eq!(split_once("secret", '.'), None);
    assert_eq!(split_once("", '.'), None);
}

#[test]
fn same_and_joined() {
    assert!(same("register", "register"));
    assert!(!same("register", "Register"));
    assert!(!same("register", "register "));
    assert_eq!(join("ERROR: ", "no"), "ERROR: no");
    assert_eq!(join("", ""), "");
}

#[test]
fn a_copy_has_the_same_strings() {
    let list = strings(&["a", "", "ü"]);
    assert_eq!(copy_strings(&list), list);
}
