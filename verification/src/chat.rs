//! One message of a conversation.

use vstd::prelude::*;

verus! {

/// A chat message: its text, and whether the local user wrote it.
#[derive(Debug)]
pub struct Message {
    pub content: String,
    pub is_own: bool,
}

/// What a message is, as plain values.
pub struct MessageView {
    pub content: Seq<char>,
    pub is_own: bool,
}

impl View for Message {
    type V = MessageView;

    open spec fn view(&self) -> MessageView {
        MessageView { content: self.content@, is_own: self.is_own }
    }
}

impl Clone for Message {
    fn clone(&self) -> (m: Self)
        ensures
            m == *self,
    {
        Message { content: self.content.clone(), is_own: self.is_own }
    }
}

impl Message {
    /// The text of the sample message.
    pub open spec fn sample_text() -> Seq<char> {
        "I am a sample string LOL! Check out this sample stuff LOL!"@
    }

    /// A message received from the other side, with a fixed text.
    pub fn sample() -> (m: Self)
        ensures
            m@ == (MessageView { content: Message::sample_text(), is_own: false }),
    {
        let content = "I am a sample string LOL! Check out this sample stuff LOL!".to_owned();
        let is_own = false;
        Self { content, is_own }
    }

    pub fn new(content: String, is_own: bool) -> (m: Self)
        ensures
            m.content == content,
            m.is_own == is_own,
    {
        Self { content, is_own }
    }
}

/// The views of a list of messages, in order.
pub open spec fn message_views(messages: Seq<Message>) -> Seq<MessageView> {
    messages.map_values(|m: Message| m@)
}

} // verus!
