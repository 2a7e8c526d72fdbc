//! The people one can talk to, each with the conversation so far.

use crate::chat::{message_views, Message, MessageView};
use vstd::prelude::*;

verus! {

/// A contact: where its messages go, what it is called, the conversation
/// so far, and the text that was being written to it.
#[derive(Debug)]
pub struct Contact {
    pub addr: String,
    pub name: String,
    pub history: Vec<Message>,
    pub draft: String,
}

/// What a contact is, as plain values.
pub struct ContactView {
    pub addr: Seq<char>,
    pub name: Seq<char>,
    pub history: Seq<MessageView>,
    pub draft: Seq<char>,
}

impl View for Contact {
    type V = ContactView;

    open spec fn view(&self) -> ContactView {
        ContactView {
            addr: self.addr@,
            name: self.name@,
            history: message_views(self.history@),
            draft: self.draft@,
        }
    }
}

/// A copy of a list of messages.
pub fn clone_messages(messages: &Vec<Message>) -> (copy: Vec<Message>)
    ensures
        copy@ == messages@,
{
    let mut copy: Vec<Message> = Vec::new();
    let mut i: usize = 0;
    while i < messages.len()
        invariant
            i <= messages.len(),
            copy@ == messages@.take(i as int),
        decreases messages.len() - i,
    {
        copy.push(messages[i].clone());
        assert(copy@ =~= messages@.take(i as int + 1));
        i = i + 1;
    }
    assert(messages@.take(messages.len() as int) =~= messages@);
    copy
}

impl Clone for Contact {
    fn clone(&self) -> (c: Self)
        ensures
            c@ == self@,
            c.history@ == self.history@,
    {
        Contact {
            addr: self.addr.clone(),
            name: self.name.clone(),
            history: clone_messages(&self.history),
            draft: self.draft.clone(),
        }
    }
}

impl Contact {
    /// The view of the sample contact: three sample messages, nothing
    /// being written.
    pub open spec fn sample_view() -> ContactView {
        let m = MessageView { content: Message::sample_text(), is_own: false };
        ContactView {
            addr: "123.123.123.12"@,
            name: "Sample Guy - OR GIRL!"@,
            history: seq![m, m, m],
            draft: Seq::empty(),
        }
    }

    pub fn sample() -> (c: Self)
        ensures
            c@ == Contact::sample_view(),
    {
        let addr = "123.123.123.12".to_owned();
        let name = "Sample Guy - OR GIRL!".to_owned();
        let mut history: Vec<Message> = Vec::new();
        history.push(Message::sample());
        history.push(Message::sample());
        history.push(Message::sample());
        let c = Self { addr, name, history, draft: String::new() };
        assert(c@.history =~= Contact::sample_view().history);
        c
    }

    /// A contact with the given conversation so far and nothing being
    /// written.
    pub fn new(addr: String, name: String, history: Vec<Message>) -> (c: Self)
        ensures
            c.addr == addr,
            c.name == name,
            c.history == history,
            c.draft@ == Seq::<char>::empty(),
    {
        Self { addr, name, history, draft: String::new() }
    }
}

/// The views of a list of contacts, in order.
pub open spec fn contact_views(contacts: Seq<Contact>) -> Seq<ContactView> {
    contacts.map_values(|c: Contact| c@)
}

} // verus!
