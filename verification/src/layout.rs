//! The panel as a whole: the contact list, the conversation that is open,
//! the bars, and what pointer, keyboard and scroll events do to them.

use crate::bar::{Bar, BarView};
use crate::button::{is_click_of, ClickAction};
use crate::chat::{message_views, Message, MessageView};
use crate::contacts::{clone_messages, contact_views, Contact, ContactView};
use crate::dispatcher::{ActionDispatcher, DispatcherView};
use crate::geometry::{scale_factor, spec_scale_factor, Point, ScaleMismatchError};
use crate::render::{SizeInfo, CONTACT_PADDING};
use crate::scroll::{RegionKind, ScrollRegion};
use crate::session::{scripted_reply, scroll_at_bottom, ChatSession, ChatSessionView};
use crate::text::{is_blank, spec_is_blank};
use vstd::prelude::*;

verus! {

/// Pixels that one step of the scroll wheel moves.
pub const SCROLL_SENSITIVITY: i32 = 5;

/// The part of the panel that the pointer is in.
#[derive(Clone, Copy, Debug, PartialEq, Eq, Structural)]
pub enum UIElements {
    /// The contact list, left, with the number of the entry that the
    /// pointer's height falls on. That number need not be one of a contact.
    Contacts(i64),
    /// The chat pane, right.
    Chat,
}

/// `a / b` rounded toward zero, for a positive `b`.
pub open spec fn trunc_div(a: int, b: int) -> int {
    if a >= 0 {
        a / b
    } else {
        -((-a) / b)
    }
}

/// Where the pointer is. The pixel on the right edge of the contact pane
/// belongs to the contact list.
pub open spec fn spec_where_is_mouse(
    mouse_x: int,
    mouse_y: int,
    size_info: SizeInfo,
    hidpi_scaling: int,
) -> UIElements {
    if mouse_x * hidpi_scaling <= size_info.contact_pane.0 {
        UIElements::Contacts(
            trunc_div(mouse_y * hidpi_scaling, size_info.contact.1 + CONTACT_PADDING) as i64,
        )
    } else {
        UIElements::Chat
    }
}

/// Tells which part of the panel the pointer is in.
pub fn where_is_mouse(
    mouse_x: &i32,
    mouse_y: &i32,
    size_info: &SizeInfo,
    hidpi_scaling: i32,
) -> (part: UIElements)
    ensures
        part == spec_where_is_mouse(
            *mouse_x as int,
            *mouse_y as int,
            *size_info,
            hidpi_scaling as int,
        ),
{
    let x: i64 = *mouse_x as i64;
    let y: i64 = *mouse_y as i64;
    let scale: i64 = hidpi_scaling as i64;
    assert(-0x4000_0000_0000_0000 <= x * scale <= 0x4000_0000_0000_0000) by (nonlinear_arith)
        requires
            -0x8000_0000 <= x <= 0x7fff_ffff,
            -0x8000_0000 <= scale <= 0x7fff_ffff,
    ;
    assert(-0x4000_0000_0000_0000 <= y * scale <= 0x4000_0000_0000_0000) by (nonlinear_arith)
        requires
            -0x8000_0000 <= y <= 0x7fff_ffff,
            -0x8000_0000 <= scale <= 0x7fff_ffff,
    ;
    if x * scale <= size_info.contact_pane.0 as i64 {
        let contact_height: i64 = size_info.contact.1 as i64 + CONTACT_PADDING as i64;
        let scaled: i64 = y * scale;
        let i: i64 = if scaled >= 0 {
            scaled / contact_height
        } else {
            -((-scaled) / contact_height)
        };
        UIElements::Contacts(i)
    } else {
        UIElements::Chat
    }
}

/// A contact was asked for at a place where the list has none.
#[derive(Clone, Copy, Debug, PartialEq, Eq, Structural)]
pub struct IndexOutOfRange {
    pub index: usize,
    pub len: usize,
}

/// How an attempt to send the draft ended.
#[derive(Clone, Copy, Debug, PartialEq, Eq, Structural)]
pub enum SendOutcome {
    /// The draft went out, and the reply came back.
    Sent,
    /// There was nothing to send: the draft was empty or white space.
    EmptySubmission,
    /// No conversation is open.
    NoConversation,
}

/// The whole panel.
#[derive(Debug)]
pub struct Layout {
    pub contacts: Vec<Contact>,
    /// The conversation that is open, if any.
    pub session: Option<ChatSession>,
    /// How far the contact list is scrolled.
    pub contact_scroll: ScrollRegion,
    pub bars: Vec<Bar>,
    pub dispatcher: ActionDispatcher,
}

/// What the panel is, as plain values.
pub struct LayoutView {
    pub contacts: Seq<ContactView>,
    pub session: Option<ChatSessionView>,
    pub contact_scroll: ScrollRegion,
    pub bars: Seq<BarView>,
    pub dispatcher: DispatcherView,
}

/// The views of a list of bars, in order.
pub open spec fn bar_views(bars: Seq<Bar>) -> Seq<BarView> {
    bars.map_values(|b: Bar| b@)
}

impl View for Layout {
    type V = LayoutView;

    open spec fn view(&self) -> LayoutView {
        LayoutView {
            contacts: contact_views(self.contacts@),
            session: match self.session {
                Some(s) => Some(s@),
                None => None,
            },
            contact_scroll: self.contact_scroll,
            bars: bar_views(self.bars@),
            dispatcher: self.dispatcher@,
        }
    }
}

/// The bars and widgets that a click at `(px, py)` reaches among the
/// first `n` bars: for each bar that holds the pointer and has a widget
/// under it, the place of the bar and the place of the widget in it.
pub open spec fn click_hits(bars: Seq<BarView>, px: int, py: int, n: int) -> Seq<(int, int)>
    decreases n,
{
    if n <= 0 {
        Seq::empty()
    } else {
        let earlier = click_hits(bars, px, py, n - 1);
        let bar = bars[n - 1];
        if bar.contains(px, py) && bar.locate(px, py) is Some {
            earlier.push((n - 1, bar.locate(px, py)->0))
        } else {
            earlier
        }
    }
}

impl LayoutView {
    /// Every bar has the size that its widgets give it, and every widget
    /// shows the colour that its state asks for.
    pub open spec fn bars_wf(self) -> bool {
        forall|i: int|
            0 <= i < self.bars.len() ==> {
                &&& (#[trigger] self.bars[i]).wf()
                &&& self.bars[i].children_wf()
            }
    }

    /// No two contacts have the same address: the address tells a contact
    /// from every other.
    pub open spec fn addresses_unique(self) -> bool {
        forall|i: int, j: int|
            0 <= i < j < self.contacts.len() ==> (#[trigger] self.contacts[i]).addr != (
            #[trigger] self.contacts[j]).addr
    }

    /// The place of the first contact with this address.
    pub open spec fn place_of(self, addr: Seq<char>, from: int) -> Option<int>
        decreases self.contacts.len() - from,
    {
        if from < 0 || from >= self.contacts.len() {
            None
        } else if self.contacts[from].addr == addr {
            Some(from)
        } else {
            self.place_of(addr, from + 1)
        }
    }

    /// What holds of the panel whatever conversation is open: no two
    /// contacts share an address, the contact list is a list region with
    /// its offset within its bounds, and the bars are well formed.
    pub open spec fn frame_wf(self) -> bool {
        &&& self.addresses_unique()
        &&& self.contact_scroll.kind == RegionKind::List
        &&& self.contact_scroll.wf()
        &&& self.bars_wf()
    }

    /// The panel is well formed around its conversation, and the open
    /// conversation is with a contact of the list, mirrors that contact's
    /// messages, and is a content region with its offset within its
    /// bounds.
    pub open spec fn wf(self) -> bool {
        &&& self.frame_wf()
        &&& self.session matches Some(s) ==> {
            &&& s.contact < self.contacts.len()
            &&& s.messages == self.contacts[s.contact as int].history
            &&& s.scroll.kind == RegionKind::Content
            &&& s.scroll.wf()
        }
    }

    /// The panel with the open conversation written back to its contact:
    /// the contact's history becomes the messages of the conversation,
    /// and its draft the text being written. A conversation with a contact
    /// that is not in the list is written nowhere.
    pub open spec fn written_back(self) -> LayoutView {
        match self.session {
            Some(s) => if s.contact < self.contacts.len() {
                LayoutView {
                    contacts: self.contacts.update(
                        s.contact as int,
                        ContactView {
                            history: s.messages,
                            draft: s.draft,
                            ..self.contacts[s.contact as int]
                        },
                    ),
                    ..self
                }
            } else {
                self
            },
            None => self,
        }
    }

    /// The panel with another conversation in the place of the open one.
    pub open spec fn with_session(self, session: ChatSessionView) -> LayoutView {
        LayoutView { session: Some(session), ..self }
    }

    /// The panel after the contact at place `index` was selected: the
    /// conversation that was open is written back to its contact first.
    pub open spec fn selected(self, index: int, size_info: SizeInfo) -> LayoutView {
        let contacts = self.written_back().contacts;
        LayoutView {
            contacts,
            session: Some(
                ChatSessionView {
                    contact: index as nat,
                    messages: contacts[index].history,
                    draft: contacts[index].draft,
                    scroll: scroll_at_bottom(
                        ScrollRegion {
                            kind: RegionKind::Content,
                            offset: 0,
                            min_offset: 0,
                            max_offset: 0,
                        },
                        size_info.spec_chat_content(),
                        size_info.spec_chat_viewport(),
                    ),
                },
            ),
            ..self
        }
    }

    /// Whether sending would send something: a conversation is open and
    /// its draft says something.
    pub open spec fn can_send(self) -> bool {
        self.session matches Some(s) && !spec_is_blank(s.draft)
    }

    /// The panel after the draft was sent and answered: the conversation
    /// has the two new messages and an empty draft, is at its bottom, and
    /// is written back to its contact.
    pub open spec fn sent(self, size_info: SizeInfo) -> LayoutView {
        let s = self.session->0;
        let own = s.own_message();
        let reply = s.reply_message();
        self.with_session(
            ChatSessionView {
                contact: s.contact,
                messages: s.messages.push(own).push(reply),
                draft: Seq::empty(),
                scroll: scroll_at_bottom(
                    s.scroll,
                    size_info.spec_chat_content(),
                    size_info.spec_chat_viewport(),
                ),
            },
        ).written_back()
    }

    /// The panel after a message was added to the open conversation: the
    /// conversation has it at its end and is written back to its contact.
    /// Without an open conversation the message goes nowhere.
    pub open spec fn appended(self, message: MessageView) -> LayoutView {
        match self.session {
            Some(s) => self.with_session(s.appended(message)).written_back(),
            None => self,
        }
    }

    /// The panel with the open conversation at the bottom of a content of
    /// the height that `size_info` gives.
    pub open spec fn at_bottom(self, size_info: SizeInfo) -> LayoutView {
        match self.session {
            Some(s) => self.with_session(
                ChatSessionView {
                    scroll: scroll_at_bottom(
                        s.scroll,
                        size_info.spec_chat_content(),
                        size_info.spec_chat_viewport(),
                    ),
                    ..s
                },
            ),
            None => self,
        }
    }

    /// The panel after the pointer moved to `(px, py)`: bars that hold
    /// the pointer pass the move on, the others go idle.
    pub open spec fn hovered(self, px: int, py: int) -> LayoutView {
        LayoutView {
            bars: Seq::new(
                self.bars.len(),
                |i: int|
                    if self.bars[i].contains(px, py) {
                        self.bars[i].hovered(px, py)
                    } else {
                        self.bars[i].unhovered()
                    },
            ),
            ..self
        }
    }

    /// The panel after the wheel turned by `delta` with the pointer in
    /// `part`: both scrollable areas take note of their sizes, and the one
    /// under the pointer scrolls.
    pub open spec fn scrolled(
        self,
        part: UIElements,
        delta: int,
        size_info: SizeInfo,
    ) -> LayoutView {
        let list = self.contact_scroll.with_extent(
            size_info.spec_contacts_content(self.contacts.len()),
            size_info.spec_contacts_viewport(),
        );
        LayoutView {
            contact_scroll: if part is Contacts {
                list.scrolled(delta, SCROLL_SENSITIVITY as int)
            } else {
                list
            },
            session: match self.session {
                Some(s) => {
                    let chat = s.scroll.with_extent(
                        size_info.spec_chat_content(),
                        size_info.spec_chat_viewport(),
                    );
                    Some(
                        ChatSessionView {
                            scroll: if part is Chat {
                                chat.scrolled(delta, SCROLL_SENSITIVITY as int)
                            } else {
                                chat
                            },
                            ..s
                        },
                    )
                },
                None => None,
            },
            ..self
        }
    }

    /// The panel after a click with the pointer in `part`: a click on an
    /// entry of the contact list selects that contact.
    pub open spec fn clicked(self, part: UIElements, size_info: SizeInfo) -> LayoutView {
        match part {
            UIElements::Contacts(i) => if 0 <= i < self.contacts.len() {
                self.selected(i as int, size_info)
            } else {
                self
            },
            UIElements::Chat => self,
        }
    }
}

impl Layout {
    /// A panel with these contacts and bars, no conversation open, and
    /// nothing under way.
    pub fn new(contacts: Vec<Contact>, bars: Vec<Bar>) -> (layout: Layout)
        ensures
            layout.contacts == contacts,
            layout.bars == bars,
            layout.session is None,
            layout.contact_scroll == (ScrollRegion {
                kind: RegionKind::List,
                offset: 0,
                min_offset: 0,
                max_offset: 0,
            }),
            layout@.dispatcher == ActionDispatcher::spec_new(),
            layout@.bars == bar_views(bars@),
            layout@.bars_wf() && layout@.addresses_unique() ==> layout@.wf(),
            layout@.contact_scroll.kind == RegionKind::List,
    {
        Layout {
            contacts,
            session: None,
            contact_scroll: ScrollRegion::new(RegionKind::List),
            bars,
            dispatcher: ActionDispatcher::new(),
        }
    }

    /// A panel to try things on: three contacts, the second of them the
    /// sample contact, and the conversation with the third open.
    pub fn sample() -> (layout: Self)
        ensures
            layout@.wf(),
            layout@.contacts.len() == 3,
            layout@.contacts[0] == (ContactView {
                addr: "123.2.2"@,
                name: "Mette Frederiksen"@,
                history: Seq::empty(),
                draft: Seq::empty(),
            }),
            layout@.contacts[1] == Contact::sample_view(),
            layout@.contacts[2] == (ContactView {
                addr: "123.123.2"@,
                name: "Polsegut"@,
                history: Seq::empty(),
                draft: Seq::empty(),
            }),
            layout@.session == Some(
                ChatSessionView {
                    contact: 2,
                    messages: Seq::empty(),
                    draft: Seq::empty(),
                    scroll: ScrollRegion {
                        kind: RegionKind::Content,
                        offset: 0,
                        min_offset: 0,
                        max_offset: 0,
                    },
                },
            ),
            layout@.contact_scroll == (ScrollRegion {
                kind: RegionKind::List,
                offset: 0,
                min_offset: 0,
                max_offset: 0,
            }),
            layout@.bars.len() == 0,
            layout@.dispatcher == ActionDispatcher::spec_new(),
    {
        let _0 = Contact::new("123.2.2".to_owned(), "Mette Frederiksen".to_owned(), Vec::new());
        let _1 = Contact::sample();
        let _2 = Contact::new("123.123.2".to_owned(), "Polsegut".to_owned(), Vec::new());
        let session = ChatSession::open(2, &_2, 0, 0);
        let mut contacts: Vec<Contact> = Vec::new();
        contacts.push(_0);
        contacts.push(_1);
        contacts.push(_2);
        let layout = Self {
            contacts,
            session: Some(session),
            contact_scroll: ScrollRegion::new(RegionKind::List),
            bars: Vec::new(),
            dispatcher: ActionDispatcher::new(),
        };
        proof {
            reveal_strlit("123.2.2");
            reveal_strlit("123.123.123.12");
            reveal_strlit("123.123.2");
            assert(layout@.contacts[0].addr.len() == 7);
            assert(layout@.contacts[1].addr.len() == 14);
            assert(layout@.contacts[2].addr.len() == 9);
        }
        assert(layout@.contacts[0].history =~= Seq::empty());
        assert(layout@.contacts[2].history =~= Seq::empty());
        assert(layout@.session->0.messages =~= Seq::empty());
        layout
    }

    /// Looks a contact up by its address: the place of the first contact
    /// of the list that has it.
    pub fn find_contact(&self, addr: &String) -> (place: Option<usize>)
        ensures
            match place {
                Some(i) => self@.place_of(addr@, 0) == Some(i as int) && i < self.contacts.len(),
                None => self@.place_of(addr@, 0) is None,
            },
    {
        let mut i: usize = 0;
        while i < self.contacts.len()
            invariant
                i <= self.contacts.len(),
                self@.place_of(addr@, 0) == self@.place_of(addr@, i as int),
            decreases self.contacts.len() - i,
        {
            if self.contacts[i].addr == *addr {
                return Some(i);
            }
            i = i + 1;
        }
        None
    }

    /// Tells whether no two contacts have the same address.
    pub fn has_unique_addresses(&self) -> (unique: bool)
        ensures
            unique == self@.addresses_unique(),
    {
        let mut j: usize = 0;
        while j < self.contacts.len()
            invariant
                j <= self.contacts.len(),
                forall|a: int, b: int|
                    0 <= a < b < j ==> (#[trigger] self@.contacts[a]).addr != (
                    #[trigger] self@.contacts[b]).addr,
            decreases self.contacts.len() - j,
        {
            let mut i: usize = 0;
            while i < j
                invariant
                    i <= j < self.contacts.len(),
                    forall|a: int| 0 <= a < i ==> (#[trigger] self@.contacts[a]).addr
                        != self@.contacts[j as int].addr,
                decreases j - i,
            {
                if self.contacts[i].addr == self.contacts[j].addr {
                    assert(self@.contacts[i as int].addr == self@.contacts[j as int].addr);
                    return false;
                }
                i = i + 1;
            }
            j = j + 1;
        }
        true
    }

    /// Writes the open conversation back to its contact: the messages
    /// become the contact's history, and the text being written its
    /// draft.
    fn write_back(&mut self)
        ensures
            final(self)@ == old(self)@.written_back(),
            final(self).contacts.len() == old(self).contacts.len(),
            final(self).session == old(self).session,
            final(self).contact_scroll == old(self).contact_scroll,
    {
        let ghost listed = self.contacts@;
        match &self.session {
            Some(s) => {
                if s.contact < self.contacts.len() {
                    let at: usize = s.contact;
                    let draft = s.draft.clone();
                    let history = clone_messages(&s.messages);
                    self.contacts[at].draft = draft;
                    self.contacts[at].history = history;
                    proof {
                        let kept = self.contacts@[at as int];
                        assert(kept.history@ == s.messages@);
                        assert(kept@ == (ContactView {
                            history: message_views(s.messages@),
                            draft: s.draft@,
                            ..listed[at as int]@
                        }));
                        assert forall|j: int| 0 <= j < listed.len() && j != at implies (
                        self.contacts@[j]) == listed[j] by {}
                        assert(contact_views(self.contacts@) =~= old(
                            self,
                        )@.written_back().contacts);
                    }
                }
            },
            None => {},
        }
    }

    /// Adds a message to the open conversation and to the history of its
    /// contact, and tells whether a conversation was open to take it.
    pub fn append_message(&mut self, message: Message) -> (taken: bool)
        ensures
            taken == old(self)@.session is Some,
            final(self)@ == old(self)@.appended(message@),
            old(self)@.wf() ==> final(self)@.wf(),
    {
        match &mut self.session {
            Some(s) => {
                s.append_message(message);
            },
            None => {
                return false;
            },
        }
        self.write_back();
        true
    }

    /// Brings the open conversation to the bottom of its content, whose
    /// height `size_info` gives. The host calls this when it has measured
    /// a conversation that was just opened or has just grown.
    pub fn scroll_to_bottom(&mut self, size_info: &SizeInfo)
        ensures
            final(self)@ == old(self)@.at_bottom(*size_info),
            final(self).session matches Some(s) ==> s.scroll.wf(),
            old(self)@.wf() ==> final(self)@.wf(),
    {
        match &mut self.session {
            Some(s) => {
                s.scroll.set_extent(size_info.chat_content(), size_info.chat_viewport());
                s.scroll.auto_scroll_to_bottom();
            },
            None => {},
        }
    }

    /// Opens the conversation with the contact at place `index` of the
    /// list, scrolled to its bottom. The conversation that was open is
    /// written back to its contact first. `size_info` gives the height of that
    /// conversation and of the room it is shown in. A place beyond the end
    /// of the list is refused, and nothing changes.
    pub fn select_contact(
        &mut self,
        index: usize,
        size_info: &SizeInfo,
    ) -> (r: Result<(), IndexOutOfRange>)
        ensures
            r is Ok <==> index < old(self).contacts.len(),
            r matches Err(e) ==> e == (IndexOutOfRange { index, len: old(self).contacts.len() })
                && final(self)@ == old(self)@,
            r is Ok ==> final(self)@ == old(self)@.selected(index as int, *size_info),
            r is Ok && old(self)@.frame_wf() ==> final(self)@.wf(),
    {
        if index >= self.contacts.len() {
            return Err(IndexOutOfRange { index, len: self.contacts.len() });
        }
        self.write_back();
        let session = ChatSession::open(
            index,
            &self.contacts[index],
            size_info.chat_content(),
            size_info.chat_viewport(),
        );
        self.session = Some(session);
        Ok(())
    }

    /// Sends the draft of the open conversation. The draft becomes a
    /// message of one's own, the scripted reply follows it, the draft is
    /// emptied, the conversation scrolls to its bottom, and the
    /// conversation is written back to its contact, so that the contact's
    /// history holds what the conversation holds. A draft that says
    /// nothing is not sent, and nothing changes.
    pub fn send_message(&mut self, size_info: &SizeInfo) -> (outcome: SendOutcome)
        ensures
            match outcome {
                SendOutcome::Sent => old(self)@.can_send() && final(self)@ == old(self)@.sent(
                    *size_info,
                ),
                SendOutcome::EmptySubmission => old(self)@.session is Some && !old(
                    self,
                )@.can_send() && final(self)@ == old(self)@,
                SendOutcome::NoConversation => old(self)@.session is None && final(self)@ == old(
                    self,
                )@,
            },
            old(self)@.wf() ==> final(self)@.wf(),
    {
        let content_height = size_info.chat_content();
        let viewport_height = size_info.chat_viewport();
        match &mut self.session {
            None => {
                return SendOutcome::NoConversation;
            },
            Some(s) => {
                if is_blank(s.draft.as_str()) {
                    return SendOutcome::EmptySubmission;
                }
                let ghost before = s@;
                let mut text = String::new();
                std::mem::swap(&mut text, &mut s.draft);
                let own = Message::new(text, true);
                let reply = Message::new(scripted_reply(s.messages.len()), false);
                s.messages.push(own);
                s.messages.push(reply);
                s.scroll.set_extent(content_height, viewport_height);
                s.scroll.auto_scroll_to_bottom();
                assert(message_views(s.messages@) =~= before.messages.push(
                    before.own_message(),
                ).push(before.reply_message()));
            },
        }
        self.write_back();
        SendOutcome::Sent
    }

    /// Writes `text` at the end of the draft of the open conversation.
    /// Without an open conversation nothing is written.
    pub fn type_text(&mut self, text: &str)
        ensures
            final(self)@ == (LayoutView {
                session: match old(self)@.session {
                    Some(s) => Some(s.typed(text@)),
                    None => None,
                },
                ..old(self)@
            }),
            old(self)@.wf() ==> final(self)@.wf(),
    {
        match &mut self.session {
            Some(s) => s.push_text(text),
            None => {},
        }
    }

    /// Takes back the last character of the draft of the open
    /// conversation.
    pub fn backspace(&mut self)
        ensures
            final(self)@ == (LayoutView {
                session: match old(self)@.session {
                    Some(s) => Some(s.erased()),
                    None => None,
                },
                ..old(self)@
            }),
            old(self)@.wf() ==> final(self)@.wf(),
    {
        match &mut self.session {
            Some(s) => s.backspace(),
            None => {},
        }
    }
}

/// Whether `actions` are what a click at `pos` brings about: one action
/// for each bar that holds the pointer and has a widget under it, in the
/// order of the bars, each the action of the widget that the bar locates.
pub open spec fn are_clicks_of(actions: Seq<ClickAction>, bars: Seq<BarView>, pos: Point) -> bool {
    let hits = click_hits(bars, pos.x as int, pos.y as int, bars.len() as int);
    &&& actions.len() == hits.len()
    &&& forall|k: int|
        0 <= k < hits.len() ==> is_click_of(
            #[trigger] actions[k],
            bars[hits[k].0].buttons[hits[k].1],
            pos,
        )
}

impl Layout {
    /// The pointer moved to `(x, y)`. Every bar is visited: one that holds
    /// the pointer brings its widgets in line with it, every other bar
    /// lets all its widgets go idle.
    pub fn hover(&mut self, x: i32, y: i32)
        ensures
            final(self)@ == old(self)@.hovered(x as int, y as int),
            old(self)@.wf() ==> final(self)@.wf(),
    {
        let ghost before = self@;
        let mut i: usize = 0;
        while i < self.bars.len()
            invariant
                i <= self.bars.len(),
                self.bars.len() == before.bars.len(),
                self@ == (LayoutView { bars: self@.bars, ..before }),
                forall|j: int|
                    0 <= j < i ==> self@.bars[j] == if before.bars[j].contains(x as int, y as int) {
                        before.bars[j].hovered(x as int, y as int)
                    } else {
                        before.bars[j].unhovered()
                    },
                forall|j: int| i <= j < self.bars.len() ==> self@.bars[j] == before.bars[j],
                before.bars_wf() ==> self@.bars_wf(),
            decreases self.bars.len() - i,
        {
            let ghost prev = self.bars@;
            assert(before.bars_wf() ==> self@.bars[i as int].wf()
                && self@.bars[i as int].children_wf());
            let inside = self.bars[i].bounds().contains(x, y);
            if inside {
                self.bars[i].hover(x, y);
            } else {
                self.bars[i].unhover();
            }
            proof {
                assert(self.bars@ =~= prev.update(i as int, self.bars@[i as int]));
                assert forall|j: int| 0 <= j < self.bars.len() && j != i implies (
                #[trigger] self@.bars[j]) == bar_views(prev)[j] by {
                    assert(self.bars@[j] == prev[j]);
                }
            }
            i = i + 1;
        }
        assert(self@.bars =~= before.hovered(x as int, y as int).bars);
    }

    /// A click at `(x, y)`. Each bar that holds the pointer hands the
    /// click to the widget under it, and what the widgets ask for is
    /// handed back, in the order of the bars. A click on an entry of the
    /// contact list then selects that contact; a click below the last
    /// entry selects nothing.
    pub fn click(
        &mut self,
        x: &i32,
        y: &i32,
        size_info: &SizeInfo,
        hidpi_scaling: i32,
    ) -> (actions: Vec<ClickAction>)
        ensures
            final(self)@ == old(self)@.clicked(
                spec_where_is_mouse(*x as int, *y as int, *size_info, hidpi_scaling as int),
                *size_info,
            ),
            are_clicks_of(actions@, old(self)@.bars, Point { x: *x, y: *y }),
            old(self)@.wf() ==> final(self)@.wf(),
    {
        let ghost before = self@;
        let pos = Point::new(*x, *y);
        let mut actions: Vec<ClickAction> = Vec::new();
        let mut i: usize = 0;
        while i < self.bars.len()
            invariant
                i <= self.bars.len(),
                self@ == before,
                pos == (Point { x: *x, y: *y }),
                actions@.len() == click_hits(
                    before.bars,
                    pos.x as int,
                    pos.y as int,
                    i as int,
                ).len(),
                forall|k: int|
                    0 <= k < actions@.len() ==> is_click_of(
                        #[trigger] actions@[k],
                        before.bars[click_hits(
                            before.bars,
                            pos.x as int,
                            pos.y as int,
                            i as int,
                        )[k].0].buttons[click_hits(
                            before.bars,
                            pos.x as int,
                            pos.y as int,
                            i as int,
                        )[k].1],
                        pos,
                    ),
            decreases self.bars.len() - i,
        {
            let ghost prev = self.bars@;
            let ghost earlier = click_hits(before.bars, pos.x as int, pos.y as int, i as int);
            if self.bars[i].bounds().contains(pos.x, pos.y) {
                match self.bars[i].click(pos) {
                    Some(action) => {
                        actions.push(action);
                    },
                    None => {},
                }
            }
            proof {
                assert(bar_views(self.bars@) =~= bar_views(prev));
                let now = click_hits(before.bars, pos.x as int, pos.y as int, i as int + 1);
                assert forall|k: int| 0 <= k < earlier.len() implies now[k] == earlier[k] by {}
            }
            i = i + 1;
        }
        let part = where_is_mouse(x, y, size_info, hidpi_scaling);
        match part {
            UIElements::Contacts(entry) => {
                if entry >= 0 && (entry as u64) < self.contacts.len() as u64 {
                    let _ = self.select_contact(entry as usize, size_info);
                }
            },
            UIElements::Chat => {},
        }
        actions
    }

    /// The wheel turned by `y` steps with the pointer at `(mouse_x,
    /// mouse_y)`. The contact list and the open conversation take note of
    /// their sizes as `size_info` gives them, and the one under the
    /// pointer scrolls; both offsets end within their bounds.
    pub fn scroll(
        &mut self,
        mouse_x: &i32,
        mouse_y: &i32,
        size_info: &SizeInfo,
        y: &i32,
        hidpi_scaling: i32,
    )
        ensures
            final(self)@ == old(self)@.scrolled(
                spec_where_is_mouse(
                    *mouse_x as int,
                    *mouse_y as int,
                    *size_info,
                    hidpi_scaling as int,
                ),
                *y as int,
                *size_info,
            ),
            final(self).contact_scroll.wf(),
            final(self).session matches Some(s) ==> s.scroll.wf(),
            old(self)@.wf() ==> final(self)@.wf(),
    {
        let part = where_is_mouse(mouse_x, mouse_y, size_info, hidpi_scaling);
        self.contact_scroll.set_extent(
            size_info.contacts_content(self.contacts.len()),
            size_info.contacts_viewport(),
        );
        match &mut self.session {
            Some(s) => {
                s.scroll.set_extent(size_info.chat_content(), size_info.chat_viewport());
            },
            None => {},
        }
        match part {
            UIElements::Chat => {
                match &mut self.session {
                    Some(s) => {
                        s.scroll.scroll(*y, SCROLL_SENSITIVITY);
                    },
                    None => {},
                }
            },
            UIElements::Contacts(_) => {
                self.contact_scroll.scroll(*y, SCROLL_SENSITIVITY);
            },
        }
    }
}

/// What the host reports to the panel.
#[derive(Debug)]
pub enum InputEvent {
    /// The window was closed, or escape was pressed.
    Quit,
    PointerMoved { x: i32, y: i32 },
    PointerDown { x: i32, y: i32 },
    /// The wheel turned by `delta` steps with the pointer at `(x, y)`.
    Scroll { x: i32, y: i32, delta: i32 },
    /// Return was pressed.
    Submit,
    Backspace,
    TextInput(String),
    /// The window has a new size, given in logical and in physical pixels.
    Resized { logical: (u32, u32), physical: (u32, u32) },
    /// Anything else.
    Other,
}

/// What an event came to.
#[derive(Clone, Copy, Debug, PartialEq, Eq, Structural)]
pub enum Events {
    Quit,
    Click,
    Hovered,
    Resized,
    Scrolled,
    Text,
    SentMessage,
    /// Return was pressed on a draft that says nothing.
    EmptySubmission,
    Unhandled,
}

/// What the panel hands back to the host after an event.
#[derive(Debug)]
pub struct EventOutcome {
    pub kind: Events,
    /// What the clicked widgets ask for.
    pub actions: Vec<ClickAction>,
    /// After a resize: the new scale factor, or why there is none.
    pub scale: Option<Result<u32, ScaleMismatchError>>,
}

impl LayoutView {
    /// The panel after an event.
    pub open spec fn after_event(
        self,
        event: InputEvent,
        size_info: SizeInfo,
        hidpi_scaling: int,
    ) -> LayoutView {
        match event {
            InputEvent::PointerMoved { x, y } => self.hovered(x as int, y as int),
            InputEvent::PointerDown { x, y } => self.clicked(
                spec_where_is_mouse(x as int, y as int, size_info, hidpi_scaling),
                size_info,
            ),
            InputEvent::Scroll { x, y, delta } => self.scrolled(
                spec_where_is_mouse(x as int, y as int, size_info, hidpi_scaling),
                delta as int,
                size_info,
            ),
            InputEvent::Submit => if self.can_send() {
                self.sent(size_info)
            } else {
                self
            },
            InputEvent::Backspace => LayoutView {
                session: match self.session {
                    Some(s) => Some(s.erased()),
                    None => None,
                },
                ..self
            },
            InputEvent::TextInput(text) => LayoutView {
                session: match self.session {
                    Some(s) => Some(s.typed(text@)),
                    None => None,
                },
                ..self
            },
            _ => self,
        }
    }

    /// What an event comes to.
    pub open spec fn kind_of(self, event: InputEvent) -> Events {
        match event {
            InputEvent::Quit => Events::Quit,
            InputEvent::PointerMoved { .. } => Events::Hovered,
            InputEvent::PointerDown { .. } => Events::Click,
            InputEvent::Scroll { .. } => Events::Scrolled,
            InputEvent::Submit => if self.session is None {
                Events::Unhandled
            } else if self.can_send() {
                Events::SentMessage
            } else {
                Events::EmptySubmission
            },
            InputEvent::Backspace => Events::Text,
            InputEvent::TextInput(_) => Events::Text,
            InputEvent::Resized { .. } => Events::Resized,
            InputEvent::Other => Events::Unhandled,
        }
    }
}

impl Layout {
    /// Takes one event from the host, changes the panel accordingly, and
    /// says what the event came to. A click hands back what the clicked
    /// widgets ask for; a resize hands back the new scale factor.
    pub fn handle_event(
        &mut self,
        event: &InputEvent,
        size_info: &SizeInfo,
        hidpi_scaling: i32,
    ) -> (outcome: EventOutcome)
        ensures
            final(self)@ == old(self)@.after_event(*event, *size_info, hidpi_scaling as int),
            outcome.kind == old(self)@.kind_of(*event),
            match *event {
                InputEvent::PointerDown { x, y } => are_clicks_of(
                    outcome.actions@,
                    old(self)@.bars,
                    Point { x, y },
                ),
                _ => outcome.actions@.len() == 0,
            },
            outcome.scale == match *event {
                InputEvent::Resized { logical, physical } => Some(
                    spec_scale_factor(logical, physical),
                ),
                _ => None,
            },
            old(self)@.wf() ==> final(self)@.wf(),
    {
        match event {
            InputEvent::Quit => EventOutcome {
                kind: Events::Quit,
                actions: Vec::new(),
                scale: None,
            },
            InputEvent::PointerMoved { x, y } => {
                self.hover(*x, *y);
                EventOutcome { kind: Events::Hovered, actions: Vec::new(), scale: None }
            },
            InputEvent::PointerDown { x, y } => {
                let actions = self.click(x, y, size_info, hidpi_scaling);
                EventOutcome { kind: Events::Click, actions, scale: None }
            },
            InputEvent::Scroll { x, y, delta } => {
                self.scroll(x, y, size_info, delta, hidpi_scaling);
                EventOutcome { kind: Events::Scrolled, actions: Vec::new(), scale: None }
            },
            InputEvent::Submit => {
                let kind = match self.send_message(size_info) {
                    SendOutcome::Sent => Events::SentMessage,
                    SendOutcome::EmptySubmission => Events::EmptySubmission,
                    SendOutcome::NoConversation => Events::Unhandled,
                };
                EventOutcome { kind, actions: Vec::new(), scale: None }
            },
            InputEvent::Backspace => {
                self.backspace();
                EventOutcome { kind: Events::Text, actions: Vec::new(), scale: None }
            },
            InputEvent::TextInput(text) => {
                self.type_text(text.as_str());
                EventOutcome { kind: Events::Text, actions: Vec::new(), scale: None }
            },
            InputEvent::Resized { logical, physical } => EventOutcome {
                kind: Events::Resized,
                actions: Vec::new(),
                scale: Some(scale_factor(*logical, *physical)),
            },
            InputEvent::Other => EventOutcome {
                kind: Events::Unhandled,
                actions: Vec::new(),
                scale: None,
            },
        }
    }
}

/// Where no two contacts share an address, the address of a contact of
/// the list leads to that contact and to no other.
pub proof fn lemma_address_is_a_key(layout: LayoutView, i: int)
    requires
        layout.addresses_unique(),
        0 <= i < layout.contacts.len(),
    ensures
        layout.place_of(layout.contacts[i].addr, 0) == Some(i),
{
    lemma_place_of_from(layout, i, 0);
}

proof fn lemma_place_of_from(layout: LayoutView, i: int, from: int)
    requires
        layout.addresses_unique(),
        0 <= from <= i < layout.contacts.len(),
    ensures
        layout.place_of(layout.contacts[i].addr, from) == Some(i),
    decreases i - from,
{
    if from < i {
        assert(layout.contacts[from].addr != layout.contacts[i].addr);
        lemma_place_of_from(layout, i, from + 1);
    }
}

} // verus!
