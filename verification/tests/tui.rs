use elnet::tui::{ChatMessage, ChatState, LineColor};

#[test]
fn new_state_is_empty() {
    let state = ChatState::new();
    assert!(state.messages.is_empty());
    assert_eq!(state.input, "");
    assert_eq!(state.cursor_position, 0);
    assert!(state.lines().is_empty());
}

#[test]
fn add_message_appends_in_order() {
    let mut state = ChatState::new();
    state.input = "typing".to_string();
    state.cursor_position = 3;
    state.add_message("You".to_string(), "hello".to_string());
    state.add_message("LLM".to_string(), "hi there".to_string());
    assert_eq!(state.messages.len(), 2);
    assert_eq!(state.messages[0].sender, "You");
    assert_eq!(state.messages[0].content, "hello");
    assert_eq!(state.messages[1].sender, "LLM");
    assert_eq!(state.messages[1].content, "hi there");
    assert_eq!(state.input, "typing");
    assert_eq!(state.cursor_position, 3);
}

#[test]
fn lines_join_sender_and_content() {
    let mut state = ChatState::new();
    state.add_message("You".to_string(), "hello".to_string());
    state.add_message("LLM".to_string(), "hi: there".to_string());
    state.add_message("Your".to_string(), "".to_string());
    state.add_message("you".to_string(), "x".to_string());
    let lines = state.lines();
    assert_eq!(lines.len(), 4);
    assert_eq!(lines[0].text, "You: hello");
    assert_eq!(lines[0].color, LineColor::Green);
    assert_eq!(lines[1].text, "LLM: hi: there");
    assert_eq!(lines[1].color, LineColor::Blue);
    assert_eq!(lines[2].text, "Your: ");
    assert_eq!(lines[2].color, LineColor::Blue);
    assert_eq!(lines[3].text, "you: x");
    assert_eq!(lines[3].color, LineColor::Blue);
}

#[test]
fn own_messages_are_told_by_the_sender() {
    let own = ChatMessage { sender: "You".to_string(), content: "a".to_string() };
    let other = ChatMessage { sender: "Yo".to_string(), content: "a".to_string() };
    let empty = ChatMessage { sender: String::new(), content: "a".to_string() };
    assert!(own.is_own());
    assert!(!other.is_own());
    assert!(!empty.is_own());
    assert_eq!(own.line().text, "You: a");
    assert_eq!(own.line().color, LineColor::Green);
}
