use elnet::command::{classify, starts_with, Command};

#[test]
fn help_is_recognised() {
    assert_eq!(classify("/help"), Command::Help);
    assert_eq!(classify("/help\n"), Command::Help);
    assert_eq!(classify("/helpme"), Command::Help);
}

#[test]
fn quit_is_recognised() {
    assert_eq!(classify("/quit"), Command::Quit);
    assert_eq!(classify("/quit now"), Command::Quit);
}

#[test]
fn anything_else_is_a_prompt() {
    assert_eq!(classify("hello"), Command::Prompt("hello".to_string()));
    assert_eq!(classify(""), Command::Prompt(String::new()));
    assert_eq!(classify(" /help"), Command::Prompt(" /help".to_string()));
    assert_eq!(classify("/hel"), Command::Prompt("/hel".to_string()));
    assert_eq!(classify("/HELP"), Command::Prompt("/HELP".to_string()));
    assert_eq!(classify("/qui"), Command::Prompt("/qui".to_string()));
    assert_eq!(classify("/other"), Command::Prompt("/other".to_string()));
}

#[test]
fn starts_with_compares_characters() {
    assert!(starts_with("abc", ""));
    assert!(starts_with("abc", "ab"));
    assert!(starts_with("abc", "abc"));
    assert!(!starts_with("abc", "abcd"));
    assert!(!starts_with("abc", "b"));
    assert!(starts_with("\u{e9}t\u{e9}", "\u{e9}t"));
    assert!(!starts_with("\u{e9}t\u{e9}", "et"));
}
