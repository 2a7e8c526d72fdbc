//! The sizes of the parts of the panel, worked out from the size of the
//! canvas and from measured text. Painting is the host's part.

use crate::layout::Layout;
use vstd::prelude::*;

verus! {

/// Space around each entry of the contact list.
pub const CONTACT_PADDING: u32 = 10;

/// Space around each message bubble, and around the text in it.
pub const CHAT_MESSAGE_PADDING: u32 = 10;

/// Height of one entry of the contact list.
pub const CONTACT_HEIGHT: u32 = 50;

/// Height of the title bar and of the input bar of the chat pane.
pub const CHAT_BAR_HEIGHT: u32 = 75;

/// Width and height, in pixels, of the parts of the panel.
#[derive(Clone, Copy, Debug)]
pub struct SizeInfo {
    pub contact_pane: (u32, u32),
    pub contact: (u32, u32),
    pub plus_button: (u32, u32),
    pub chat_pane: (u32, u32),
    pub chat_message_max_width: u32,
    pub chat_total_height: i32,
    pub chat_title: (u32, u32),
    pub chat_input: (u32, u32),
}

/// What every message adds to the height of a conversation besides its
/// text: the padding inside and around its bubble.
pub open spec fn message_overhead() -> int {
    4 * CHAT_MESSAGE_PADDING
}

/// Height of the text of one message: the area that its text takes on one
/// line, spread over lines of the greatest width a message may have.
pub open spec fn wrapped_height(size: (u32, u32), max_width: u32) -> int {
    (size.1 as int * size.0 as int) / (max_width as int)
}

/// Height of the first `n` messages stacked, in physical pixels.
pub open spec fn stacked_height(sizes: Seq<(u32, u32)>, max_width: u32, n: int) -> int
    decreases n,
{
    if n <= 0 {
        0
    } else {
        stacked_height(sizes, max_width, n - 1) + message_overhead() + wrapped_height(
            sizes[n - 1],
            max_width,
        )
    }
}

/// Height of a conversation in logical pixels, given the size that the
/// text of each message takes on one line. Heights beyond what an `i32`
/// holds count as the greatest `i32`.
pub open spec fn spec_messages_height(
    sizes: Seq<(u32, u32)>,
    max_width: u32,
    hidpi_scaling: i32,
) -> int {
    let stacked = stacked_height(sizes, max_width, sizes.len() as int);
    let capped = if stacked > i32::MAX {
        i32::MAX as int
    } else {
        stacked
    };
    capped / (hidpi_scaling as int)
}

pub proof fn lemma_stacked_height_grows(sizes: Seq<(u32, u32)>, max_width: u32, i: int, j: int)
    requires
        max_width > 0,
        0 <= i <= j,
    ensures
        0 <= stacked_height(sizes, max_width, i) <= stacked_height(sizes, max_width, j),
    decreases j,
{
    if j > 0 {
        let size = sizes[j - 1];
        assert(0 <= wrapped_height(size, max_width)) by {
            assert(0 <= size.1 as int * size.0 as int) by (nonlinear_arith)
                requires
                    0 <= size.1 as int,
                    0 <= size.0 as int,
            ;
        }
        if i == j {
            lemma_stacked_height_grows(sizes, max_width, i - 1, j - 1);
        } else {
            lemma_stacked_height_grows(sizes, max_width, i, j - 1);
        }
    }
}

/// Works out the height of a conversation from the measured size of the
/// text of each of its messages.
pub fn get_messages_height(
    sizes: &Vec<(u32, u32)>,
    size_info: &SizeInfo,
    hidpi_scaling: i32,
) -> (height: i32)
    requires
        size_info.chat_message_max_width > 0,
        hidpi_scaling > 0,
    ensures
        height == spec_messages_height(sizes@, size_info.chat_message_max_width, hidpi_scaling),
        0 <= height,
{
    let max_width: u64 = size_info.chat_message_max_width as u64;
    let one_message_height_overhead: u64 = 4 * CHAT_MESSAGE_PADDING as u64;
    let cap: u64 = i32::MAX as u64;
    let mut total_height: u64 = 0;
    let mut capped: bool = false;
    let mut i: usize = 0;
    while i < sizes.len()
        invariant
            i <= sizes.len(),
            max_width == size_info.chat_message_max_width,
            max_width > 0,
            one_message_height_overhead == message_overhead(),
            cap == i32::MAX,
            total_height <= cap,
            !capped ==> total_height == stacked_height(
                sizes@,
                size_info.chat_message_max_width,
                i as int,
            ),
            capped ==> total_height == cap && stacked_height(
                sizes@,
                size_info.chat_message_max_width,
                i as int,
            ) > cap,
        decreases sizes.len() - i,
    {
        let (curr_width, curr_height) = sizes[i];
        assert(curr_height as u64 * curr_width as u64 <= u64::MAX) by (nonlinear_arith)
            requires
                curr_height <= 0xffff_ffff,
                curr_width <= 0xffff_ffff,
        ;
        let height_of_message: u64 = curr_height as u64 * curr_width as u64 / max_width;
        proof {
            lemma_stacked_height_grows(
                sizes@,
                size_info.chat_message_max_width,
                i as int,
                i as int + 1,
            );
        }
        if capped || height_of_message > cap || total_height + one_message_height_overhead
            + height_of_message > cap {
            total_height = cap;
            capped = true;
        } else {
            total_height = total_height + one_message_height_overhead + height_of_message;
        }
        i = i + 1;
    }
    (total_height / hidpi_scaling as u64) as i32
}

impl SizeInfo {
    /// The sizes for a canvas of `w` by `h` pixels, with no conversation
    /// measured yet. The contact pane takes a fifth of the width.
    pub open spec fn spec_from_canvas(w: u32, h: u32) -> SizeInfo {
        let pane = w / 5;
        let chat = (w - pane) as u32;
        SizeInfo {
            contact_pane: (pane, h),
            contact: (
                if pane >= 2 * CONTACT_PADDING {
                    (pane - 2 * CONTACT_PADDING) as u32
                } else {
                    0
                },
                CONTACT_HEIGHT,
            ),
            plus_button: (25, 25),
            chat_pane: (chat, h),
            chat_message_max_width: (chat - chat / 3) as u32,
            chat_total_height: 0,
            chat_title: (chat, CHAT_BAR_HEIGHT),
            chat_input: (chat, CHAT_BAR_HEIGHT),
        }
    }

    /// Works out the sizes of the parts from the output size of the
    /// canvas. On a canvas too narrow for the padding of the contact list,
    /// the entries of the list have no width.
    pub fn from_canvas(w: u32, h: u32) -> (sizes: Self)
        ensures
            sizes == SizeInfo::spec_from_canvas(w, h),
    {
        let contact_pane = (w / 5, h);
        let contact_width: u32 = if w / 5 >= CONTACT_PADDING * 2 {
            w / 5 - CONTACT_PADDING * 2
        } else {
            0
        };
        let contact = (contact_width, CONTACT_HEIGHT);
        let plus_button = (25, 25);
        let chat_pane = (w - contact_pane.0, h);
        let chat_message_max_width = chat_pane.0 - chat_pane.0 / 3;
        let chat_title = (chat_pane.0, CHAT_BAR_HEIGHT);
        let chat_input = (chat_pane.0, CHAT_BAR_HEIGHT);
        let chat_total_height: i32 = 0;
        Self {
            contact_pane,
            contact,
            plus_button,
            chat_pane,
            chat_message_max_width,
            chat_title,
            chat_input,
            chat_total_height,
        }
    }

    /// The height that the conversation has to show its messages in: the
    /// chat pane less its title bar and its input bar.
    pub open spec fn spec_chat_viewport(self) -> int {
        let room = self.chat_pane.1 - self.chat_title.1 - self.chat_input.1;
        if room < 0 {
            0
        } else if room > i32::MAX {
            i32::MAX as int
        } else {
            room
        }
    }

    pub fn chat_viewport(&self) -> (height: i32)
        ensures
            height == self.spec_chat_viewport(),
    {
        let room: i64 = self.chat_pane.1 as i64 - self.chat_title.1 as i64
            - self.chat_input.1 as i64;
        if room < 0 {
            0
        } else if room > i32::MAX as i64 {
            i32::MAX
        } else {
            room as i32
        }
    }

    /// The height of the conversation as last measured; never negative.
    pub open spec fn spec_chat_content(self) -> int {
        if self.chat_total_height < 0 {
            0
        } else {
            self.chat_total_height as int
        }
    }

    pub fn chat_content(&self) -> (height: i32)
        ensures
            height == self.spec_chat_content(),
    {
        if self.chat_total_height < 0 {
            0
        } else {
            self.chat_total_height
        }
    }

    /// Height of the contact list with `n` contacts: padding, then each
    /// entry followed by padding. Heights beyond what an `i32` holds count
    /// as the greatest `i32`.
    pub open spec fn spec_contacts_content(self, n: nat) -> int {
        let height = CONTACT_PADDING + n * (self.contact.1 + CONTACT_PADDING);
        if height > i32::MAX {
            i32::MAX as int
        } else {
            height
        }
    }

    pub fn contacts_content(&self, n: usize) -> (height: i32)
        ensures
            height == self.spec_contacts_content(n as nat),
    {
        let each: u128 = self.contact.1 as u128 + CONTACT_PADDING as u128;
        assert(n as u128 * each <= 0x1_0000_0000_0000_0000 * 0x2_0000_0000) by (nonlinear_arith)
            requires
                n <= 0xffff_ffff_ffff_ffff,
                each <= 0x1_ffff_ffff,
        ;
        let height: u128 = CONTACT_PADDING as u128 + n as u128 * each;
        if height > i32::MAX as u128 {
            i32::MAX
        } else {
            height as i32
        }
    }

    /// The height that the contact list is shown in.
    pub open spec fn spec_contacts_viewport(self) -> int {
        if self.contact_pane.1 > i32::MAX {
            i32::MAX as int
        } else {
            self.contact_pane.1 as int
        }
    }

    pub fn contacts_viewport(&self) -> (height: i32)
        ensures
            height == self.spec_contacts_viewport(),
    {
        if self.contact_pane.1 > i32::MAX as u32 {
            i32::MAX
        } else {
            self.contact_pane.1 as i32
        }
    }

    /// Brings the sizes up to date: the parts follow the output size of
    /// the canvas, and the height of the conversation follows the measured
    /// sizes of its messages. Without a selected conversation that height
    /// is zero.
    pub fn update_from_canvas_and_layout(
        &mut self,
        w: u32,
        h: u32,
        layout: &Layout,
        sizes: &Vec<(u32, u32)>,
        hidpi_scaling: i32,
    )
        requires
            layout.session is Some ==> hidpi_scaling > 0 && SizeInfo::spec_from_canvas(
                w,
                h,
            ).chat_message_max_width > 0,
        ensures
            *final(self) == (SizeInfo {
                chat_total_height: if layout.session is Some {
                    spec_messages_height(
                        sizes@,
                        SizeInfo::spec_from_canvas(w, h).chat_message_max_width,
                        hidpi_scaling,
                    ) as i32
                } else {
                    0
                },
                ..SizeInfo::spec_from_canvas(w, h)
            }),
    {
        let updated = Self::from_canvas(w, h);
        self.contact_pane = updated.contact_pane;
        self.contact = updated.contact;
        self.plus_button = updated.plus_button;
        self.chat_pane = updated.chat_pane;
        self.chat_message_max_width = updated.chat_message_max_width;
        self.chat_title = updated.chat_title;
        self.chat_input = updated.chat_input;
        let chat_total_height: i32 = if layout.session.is_some() {
            get_messages_height(sizes, self, hidpi_scaling)
        } else {
            0
        };
        self.chat_total_height = chat_total_height;
    }
}

} // verus!
