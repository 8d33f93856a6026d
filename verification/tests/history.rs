use companion_backend::history::{append_to_history, load_history, ChatEntry, HISTORY_PATH};

fn entry(role: &str, content: &str) -> ChatEntry {
    ChatEntry { role: role.to_string(), content: content.to_string() }
}

#[test]
fn missing_log_is_empty() {
    assert_eq!(load_history(None), Vec::<ChatEntry>::new());
}

#[test]
fn stored_log_is_kept_as_it_is() {
    let stored = vec![entry("user", "hi"), entry("assistant", "hello")];
    assert_eq!(load_history(Some(stored)), vec![entry("user", "hi"), entry("assistant", "hello")]);
    assert_eq!(load_history(Some(Vec::new())), Vec::<ChatEntry>::new());
}

#[test]
fn append_adds_a_copy_at_the_end() {
    let mut history = vec![entry("user", "hi")];
    let reply = entry("assistant", "hello");
    append_to_history(&mut history, &reply);
    assert_eq!(history, vec![entry("user", "hi"), entry("assistant", "hello")]);
    append_to_history(&mut history, &reply);
    assert_eq!(history.len(), 3);
    assert_eq!(history[2], reply);
}

#[test]
fn clone_keeps_both_fields() {
    let first = entry("user", "what is \u{3c0}?");
    let copy = first.clone();
    assert_eq!(copy, first);
    assert_eq!(copy.role, "user");
    assert_eq!(copy.content, "what is \u{3c0}?");
}

#[test]
fn history_file_name() {
    assert_eq!(HISTORY_PATH, "chat_history.json");
}
