//! The conversation that is open: its messages, the text being written,
//! and how far it is scrolled.

use crate::chat::{message_views, Message, MessageView};
use crate::contacts::{clone_messages, Contact};
use crate::scroll::{RegionKind, ScrollRegion};
use vstd::prelude::*;
use vstd::string::StringExecFns;

verus! {

/// The replies that the other side gives, in turn.
pub open spec fn spec_scripted_reply(n: nat) -> Seq<char> {
    if n % 4 == 0 {
        "Hey!"@
    } else if n % 4 == 1 {
        "Tell me more."@
    } else if n % 4 == 2 {
        "Interesting..."@
    } else {
        "Talk to you later!"@
    }
}

/// The reply to a conversation that is `n` messages long.
pub fn scripted_reply(n: usize) -> (reply: String)
    ensures
        reply@ == spec_scripted_reply(n as nat),
{
    let turn: usize = n % 4;
    if turn == 0 {
        "Hey!".to_owned()
    } else if turn == 1 {
        "Tell me more.".to_owned()
    } else if turn == 2 {
        "Interesting...".to_owned()
    } else {
        "Talk to you later!".to_owned()
    }
}

/// One message as the renderer draws it.
#[derive(Debug)]
pub struct Bubble {
    pub text: String,
    pub is_own: bool,
    /// The greatest width that the text may take before it wraps.
    pub max_width: u32,
}

/// The conversation that is open: which contact it is with, its messages,
/// the text being written, and how far it is scrolled.
#[derive(Debug)]
pub struct ChatSession {
    /// The place of the contact in the contact list.
    pub contact: usize,
    pub messages: Vec<Message>,
    pub draft: String,
    pub scroll: ScrollRegion,
}

/// What an open conversation is, as plain values.
pub struct ChatSessionView {
    pub contact: nat,
    pub messages: Seq<MessageView>,
    pub draft: Seq<char>,
    pub scroll: ScrollRegion,
}

impl View for ChatSession {
    type V = ChatSessionView;

    open spec fn view(&self) -> ChatSessionView {
        ChatSessionView {
            contact: self.contact as nat,
            messages: message_views(self.messages@),
            draft: self.draft@,
            scroll: self.scroll,
        }
    }
}

/// The scroll state of a conversation of the given height that was just
/// opened, or just grew: at its bottom.
pub open spec fn scroll_at_bottom(
    scroll: ScrollRegion,
    content_height: int,
    viewport_height: int,
) -> ScrollRegion {
    scroll.with_extent(content_height, viewport_height).at_bottom()
}

impl ChatSessionView {
    /// The conversation with one more message at its end.
    pub open spec fn appended(self, message: MessageView) -> ChatSessionView {
        ChatSessionView { messages: self.messages.push(message), ..self }
    }

    /// The conversation with more text written.
    pub open spec fn typed(self, text: Seq<char>) -> ChatSessionView {
        ChatSessionView { draft: self.draft + text, ..self }
    }

    /// The conversation with the last written character taken back.
    pub open spec fn erased(self) -> ChatSessionView {
        if self.draft.len() > 0 {
            ChatSessionView { draft: self.draft.drop_last(), ..self }
        } else {
            self
        }
    }

    /// The message that sending the draft adds.
    pub open spec fn own_message(self) -> MessageView {
        MessageView { content: self.draft, is_own: true }
    }

    /// The reply that comes back on it: the one whose turn it is after as
    /// many messages as the conversation had.
    pub open spec fn reply_message(self) -> MessageView {
        MessageView { content: spec_scripted_reply(self.messages.len()), is_own: false }
    }
}

impl ChatSession {
    /// Opens the conversation with the contact at place `contact` of the
    /// list: its messages so far, the text that was being written to it,
    /// scrolled to the bottom.
    pub fn open(
        contact: usize,
        with: &Contact,
        content_height: i32,
        viewport_height: i32,
    ) -> (s: ChatSession)
        ensures
            s@ == (ChatSessionView {
                contact: contact as nat,
                messages: with@.history,
                draft: with@.draft,
                scroll: scroll_at_bottom(
                    ScrollRegion {
                        kind: RegionKind::Content,
                        offset: 0,
                        min_offset: 0,
                        max_offset: 0,
                    },
                    content_height as int,
                    viewport_height as int,
                ),
            }),
            s.messages@ == with.history@,
            s.scroll.wf(),
    {
        let mut scroll = ScrollRegion::new(RegionKind::Content);
        scroll.set_extent(content_height, viewport_height);
        scroll.auto_scroll_to_bottom();
        ChatSession {
            contact,
            messages: clone_messages(&with.history),
            draft: with.draft.clone(),
            scroll,
        }
    }

    /// Adds a message at the end of the conversation. The history of the
    /// contact follows when the panel writes the conversation back: at
    /// once through `Layout::append_message`, else at the next send or
    /// selection.
    pub fn append_message(&mut self, message: Message)
        ensures
            final(self)@ == old(self)@.appended(message@),
            final(self).messages@ == old(self).messages@.push(message),
    {
        self.messages.push(message);
        assert(message_views(self.messages@) =~= message_views(old(self).messages@).push(message@));
    }

    /// Writes `text` at the end of the draft.
    pub fn push_text(&mut self, text: &str)
        ensures
            final(self)@ == old(self)@.typed(text@),
            final(self).messages == old(self).messages,
    {
        self.draft.append(text);
    }

    /// Takes the last character of the draft back, if there is one.
    pub fn backspace(&mut self)
        ensures
            final(self)@ == old(self)@.erased(),
            final(self).messages == old(self).messages,
    {
        self.draft.pop();
    }

    /// What the renderer draws for the conversation: one bubble for each
    /// message, in order, each with its text, its side, and the greatest
    /// width that its text may take before it wraps.
    pub fn bubbles(&self, max_width: u32) -> (bubbles: Vec<Bubble>)
        ensures
            bubbles@.len() == self.messages@.len(),
            forall|i: int|
                0 <= i < bubbles@.len() ==> {
                    &&& (#[trigger] bubbles@[i]).text@ == self@.messages[i].content
                    &&& bubbles@[i].is_own == self@.messages[i].is_own
                    &&& bubbles@[i].max_width == max_width
                },
    {
        let mut bubbles: Vec<Bubble> = Vec::new();
        let mut i: usize = 0;
        while i < self.messages.len()
            invariant
                i <= self.messages.len(),
                bubbles@.len() == i,
                forall|j: int|
                    0 <= j < i ==> {
                        &&& (#[trigger] bubbles@[j]).text@ == self@.messages[j].content
                        &&& bubbles@[j].is_own == self@.messages[j].is_own
                        &&& bubbles@[j].max_width == max_width
                    },
            decreases self.messages.len() - i,
        {
            let message = &self.messages[i];
            bubbles.push(
                Bubble { text: message.content.clone(), is_own: message.is_own, max_width },
            );
            i = i + 1;
        }
        bubbles
    }

    /// Scrolls the conversation.
    pub fn scroll(&mut self, delta: i32, sensitivity: i32)
        ensures
            final(self)@ == (ChatSessionView {
                scroll: old(self).scroll.scrolled(delta as int, sensitivity as int),
                ..old(self)@
            }),
            final(self).messages == old(self).messages,
    {
        self.scroll.scroll(delta, sensitivity);
    }
}

} // verus!
