use chitchat::chat::Message;
use chitchat::contacts::{clone_messages, Contact};

#[test]
fn sample_message() {
    let m = Message::sample();
    assert_eq!(m.content, "I am a sample string LOL! Check out this sample stuff LOL!");
    assert!(!m.is_own);
}

#[test]
fn new_message_keeps_its_parts() {
    let m = Message::new(String::from("hi"), true);
    assert_eq!(m.content, "hi");
    assert!(m.is_own);
    let copy = m.clone();
    assert_eq!(copy.content, "hi");
    assert!(copy.is_own);
}

#[test]
fn sample_contact() {
    let c = Contact::sample();
    assert_eq!(c.addr, "123.123.123.12");
    assert_eq!(c.name, "Sample Guy - OR GIRL!");
    assert_eq!(c.history.len(), 3);
    for m in &c.history {
        assert_eq!(m.content, Message::sample().content);
        assert!(!m.is_own);
    }
    assert_eq!(c.draft, "");
}

#[test]
fn new_contact_keeps_its_parts() {
    let c = Contact::new(
        String::from("10.0.0.1"),
        String::from("Server Guy"),
        vec![Message::new(String::from("hello"), false)],
    );
    assert_eq!(c.addr, "10.0.0.1");
    assert_eq!(c.name, "Server Guy");
    assert_eq!(c.history.len(), 1);
    assert_eq!(c.history[0].content, "hello");
    assert_eq!(c.draft, "");
}

#[test]
fn clone_of_a_contact_keeps_the_history_in_order() {
    let mut c = Contact::sample();
    c.history.push(Message::new(String::from("last"), true));
    c.draft = String::from("unsent");
    let copy = c.clone();
    assert_eq!(copy.addr, c.addr);
    assert_eq!(copy.name, c.name);
    assert_eq!(copy.draft, "unsent");
    assert_eq!(copy.history.len(), 4);
    assert_eq!(copy.history[3].content, "last");
    assert!(copy.history[3].is_own);
    assert_eq!(clone_messages(&c.history).len(), 4);
}
