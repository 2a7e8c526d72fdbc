//! The leaf widgets: a plain button and a button that asks for a network
//! request. Both darken while the pointer is over them.

use crate::chat_client::{server_info_url, spec_server_info_url, PendingAction, User, UserView};
use crate::geometry::{Color, FillRect, Point, Rect};
use vstd::prelude::*;

verus! {

/// One colour channel at four fifths of its value, rounded down.
pub open spec fn darken_channel(c: u8) -> u8 {
    (c as int * 4 / 5) as u8
}

/// The colour a widget shows under the pointer: each of red, green and
/// blue at four fifths, fully opaque.
pub open spec fn darken(c: Color) -> Color {
    Color { r: darken_channel(c.r), g: darken_channel(c.g), b: darken_channel(c.b), a: 255 }
}

pub open spec fn darken_opt(c: Option<Color>) -> Option<Color> {
    match c {
        Some(c) => Some(darken(c)),
        None => None,
    }
}

fn darkened_channel(c: u8) -> (d: u8)
    ensures
        d == darken_channel(c),
{
    let wide: u16 = c as u16 * 4 / 5;
    wide as u8
}

/// Computes the darkened form of a colour.
pub fn darkened(c: Color) -> (d: Color)
    ensures
        d == darken(c),
{
    Color {
        r: darkened_channel(c.r),
        g: darkened_channel(c.g),
        b: darkened_channel(c.b),
        a: 255,
    }
}

/// A button that reports that it was pressed.
#[derive(Debug, Clone, Copy)]
pub struct Button {
    pub w: u32,
    pub h: u32,
    pub color: Option<Color>,
    /// The base colour. The colour on display is derived from it.
    pub orig_color: Option<Color>,
    pub is_hovering: bool,
}

/// Sends some content when clicked.
#[derive(Debug)]
pub struct SendButton {
    pub w: u32,
    pub h: u32,
    pub color: Option<Color>,
    /// The base colour. The colour on display is derived from it.
    pub orig_color: Option<Color>,
    pub text_content: String,
    pub is_hovering: bool,
    pub send_to: User,
}

/// A widget of either kind.
#[derive(Debug)]
pub enum Buttons {
    Button(Button),
    SendButton(SendButton),
}

/// What only a send button has.
pub struct SendView {
    pub text_content: Seq<char>,
    pub send_to: UserView,
}

/// What a widget is, as plain values. `send` is there for a send button.
pub struct ButtonsView {
    pub w: nat,
    pub h: nat,
    pub color: Option<Color>,
    pub orig_color: Option<Color>,
    pub is_hovering: bool,
    pub send: Option<SendView>,
}

impl ButtonsView {
    /// The colour shown follows from the base colour and the hover flag.
    pub open spec fn wf(self) -> bool {
        self.color == if self.is_hovering {
            darken_opt(self.orig_color)
        } else {
            self.orig_color
        }
    }

    /// The pointer comes over the widget.
    pub open spec fn hover_enter(self) -> ButtonsView {
        ButtonsView { is_hovering: true, color: darken_opt(self.orig_color), ..self }
    }

    /// The pointer leaves the widget.
    pub open spec fn hover_exit(self) -> ButtonsView {
        ButtonsView { is_hovering: false, color: self.orig_color, ..self }
    }

    /// `n` times `hover_enter`.
    pub open spec fn hover_enter_times(self, n: nat) -> ButtonsView
        decreases n,
    {
        if n == 0 {
            self
        } else {
            self.hover_enter_times((n - 1) as nat).hover_enter()
        }
    }

    /// The widget with another colour on display.
    pub open spec fn with_color(self, color: Option<Color>) -> ButtonsView {
        ButtonsView { color, ..self }
    }

    /// The widget with another hover flag.
    pub open spec fn with_hovering(self, is_hovering: bool) -> ButtonsView {
        ButtonsView { is_hovering, ..self }
    }
}

impl View for Button {
    type V = ButtonsView;

    open spec fn view(&self) -> ButtonsView {
        ButtonsView {
            w: self.w as nat,
            h: self.h as nat,
            color: self.color,
            orig_color: self.orig_color,
            is_hovering: self.is_hovering,
            send: None,
        }
    }
}

impl View for SendButton {
    type V = ButtonsView;

    open spec fn view(&self) -> ButtonsView {
        ButtonsView {
            w: self.w as nat,
            h: self.h as nat,
            color: self.color,
            orig_color: self.orig_color,
            is_hovering: self.is_hovering,
            send: Some(SendView { text_content: self.text_content@, send_to: self.send_to@ }),
        }
    }
}

impl View for Buttons {
    type V = ButtonsView;

    open spec fn view(&self) -> ButtonsView {
        match self {
            Buttons::Button(b) => b@,
            Buttons::SendButton(b) => b@,
        }
    }
}

impl Clone for SendButton {
    fn clone(&self) -> (b: Self)
        ensures
            b == *self,
    {
        SendButton {
            w: self.w,
            h: self.h,
            color: self.color,
            orig_color: self.orig_color,
            text_content: self.text_content.clone(),
            is_hovering: self.is_hovering,
            send_to: self.send_to.clone(),
        }
    }
}

impl Clone for Buttons {
    fn clone(&self) -> (b: Self)
        ensures
            b == *self,
    {
        match self {
            Buttons::Button(b) => Buttons::Button(*b),
            Buttons::SendButton(b) => Buttons::SendButton(b.clone()),
        }
    }
}

/// What a click on a widget asks of the host.
#[derive(Debug)]
pub enum ClickAction {
    /// A plain button was pressed at this position. Nothing is pending.
    Pressed(Point),
    /// A send button was pressed: the host makes this request.
    Pending(PendingAction),
}

/// Whether `action` is what a click at `pos` on a widget with view `b`
/// gives: a plain button reports the press, a send button asks for the
/// server's status on behalf of its target.
pub open spec fn is_click_of(action: ClickAction, b: ButtonsView, pos: Point) -> bool {
    match action {
        ClickAction::Pressed(at) => b.send is None && at == pos,
        ClickAction::Pending(request) => {
            &&& b.send matches Some(send)
            &&& request@.target == send.send_to
            &&& request@.url == spec_server_info_url()
            &&& request@.body is None
        },
    }
}

impl Buttons {
    /// A plain button of the given size, idle, showing its base colour.
    pub fn new(w: u32, h: u32, color: Option<Color>) -> (b: Buttons)
        ensures
            b is Button,
            b@ == (ButtonsView {
                w: w as nat,
                h: h as nat,
                color,
                orig_color: color,
                is_hovering: false,
                send: None,
            }),
            b@.wf(),
    {
        Buttons::Button(Button { w, h, color, orig_color: color, is_hovering: false })
    }

    /// A send button of the given size, idle, showing its base colour.
    pub fn new_send(
        w: u32,
        h: u32,
        color: Option<Color>,
        text_content: String,
        send_to: User,
    ) -> (b: Buttons)
        ensures
            b is SendButton,
            b@ == (ButtonsView {
                w: w as nat,
                h: h as nat,
                color,
                orig_color: color,
                is_hovering: false,
                send: Some(SendView { text_content: text_content@, send_to: send_to@ }),
            }),
            b@.wf(),
    {
        Buttons::SendButton(
            SendButton {
                w,
                h,
                color,
                orig_color: color,
                text_content,
                is_hovering: false,
                send_to,
            },
        )
    }

    /// The view of the sample button: 25 by 10, gray.
    pub open spec fn sample_view() -> ButtonsView {
        ButtonsView {
            w: 25,
            h: 10,
            color: Some(Color::spec_gray()),
            orig_color: Some(Color::spec_gray()),
            is_hovering: false,
            send: None,
        }
    }

    pub fn sample() -> (b: Buttons)
        ensures
            b is Button,
            b@ == Buttons::sample_view(),
    {
        Buttons::new(25, 10, Some(Color::gray()))
    }

    fn set_hovering(&mut self, s: bool)
        ensures
            final(self)@ == old(self)@.with_hovering(s),
    {
        match self {
            Buttons::Button(b) => b.is_hovering = s,
            Buttons::SendButton(b) => b.is_hovering = s,
        }
    }

    /// What the renderer paints for this widget at the logical position
    /// `pos`: its rectangle, scaled, in the colour now on display.
    pub fn draw(&self, hidpi_scale: u32, pos: Point) -> (fill: FillRect)
        ensures
            fill.color == self@.color,
            fill.area.x == pos.x * hidpi_scale,
            fill.area.y == pos.y * hidpi_scale,
            fill.area.w == self@.w * hidpi_scale,
            fill.area.h == self@.h * hidpi_scale,
    {
        let (w, h) = self.get_w_h();
        let area = Rect::new(pos.x, pos.y, w, h).to_physical(hidpi_scale);
        FillRect { area, color: self.get_color() }
    }

    pub fn get_w(&self) -> (w: u32)
        ensures
            w == self@.w,
    {
        match self {
            Buttons::SendButton(b) => b.w,
            Buttons::Button(b) => b.w,
        }
    }

    pub fn get_h(&self) -> (h: u32)
        ensures
            h == self@.h,
    {
        match self {
            Buttons::SendButton(b) => b.h,
            Buttons::Button(b) => b.h,
        }
    }

    pub fn get_w_h(&self) -> (size: (u32, u32))
        ensures
            size.0 == self@.w,
            size.1 == self@.h,
    {
        match self {
            Buttons::SendButton(b) => (b.w, b.h),
            Buttons::Button(b) => (b.w, b.h),
        }
    }

    /// The colour now on display.
    pub fn get_color(&self) -> (c: Option<Color>)
        ensures
            c == self@.color,
    {
        match self {
            Buttons::Button(b) => b.color,
            Buttons::SendButton(b) => b.color,
        }
    }

    /// Puts another colour on display. The base colour stays, and the next
    /// hover or mouse-off derives the displayed colour from it again.
    pub fn set_color(&mut self, darkened_color: Option<Color>)
        ensures
            final(self)@ == old(self)@.with_color(darkened_color),
    {
        match self {
            Buttons::Button(b) => b.color = darkened_color,
            Buttons::SendButton(b) => b.color = darkened_color,
        }
    }

    /// The base colour, fixed when the widget was made.
    pub fn get_orig_color(&self) -> (c: Option<Color>)
        ensures
            c == self@.orig_color,
    {
        match self {
            Buttons::Button(b) => b.orig_color,
            Buttons::SendButton(b) => b.orig_color,
        }
    }

    pub fn get_hovering(&self) -> (hovering: bool)
        ensures
            hovering == self@.is_hovering,
    {
        match self {
            Buttons::Button(b) => b.is_hovering,
            Buttons::SendButton(b) => b.is_hovering,
        }
    }

    /// A click at `pos`. The widget itself does not change: a plain button
    /// reports the press, a send button hands back the request to make.
    pub fn click(&mut self, pos: Point) -> (action: ClickAction)
        ensures
            *final(self) == *old(self),
            is_click_of(action, old(self)@, pos),
    {
        match self {
            Buttons::Button(b) => ClickAction::Pressed(b.click(pos)),
            Buttons::SendButton(b) => ClickAction::Pending(b.click()),
        }
    }

    /// The pointer is over the widget.
    pub fn hover(&mut self, _x: i32, _y: i32)
        ensures
            final(self)@ == old(self)@.hover_enter(),
            final(self)@.wf(),
    {
        button_darken_on_hover(self);
    }

    /// The pointer is not over the widget.
    pub fn mouse_off(&mut self)
        ensures
            final(self)@ == old(self)@.hover_exit(),
            final(self)@.wf(),
    {
        button_restore_color(self);
    }
}

impl SendButton {
    /// The request this button stands for: fetch the server's status on
    /// behalf of the button's target.
    pub fn click(&mut self) -> (request: PendingAction)
        ensures
            *final(self) == *old(self),
            request@.target == old(self)@.send->0.send_to,
            request@.url == spec_server_info_url(),
            request@.body is None,
    {
        sample_async_click(self)
    }
}

/// What a click on a send button asks for: a fetch of the server's status,
/// on behalf of the button's target. The host makes the request; the
/// button stays as it is.
pub fn sample_async_click(b: &mut SendButton) -> (request: PendingAction)
    ensures
        *final(b) == *old(b),
        request@.target == old(b)@.send->0.send_to,
        request@.url == spec_server_info_url(),
        request@.body is None,
{
    PendingAction { target: b.send_to.clone(), url: server_info_url(), body: None }
}

impl Button {
    /// A press at `pos`: the button hands the position back for the host
    /// to note, and stays as it is.
    pub fn click(&mut self, pos: Point) -> (at: Point)
        ensures
            *final(self) == *old(self),
            at == pos,
    {
        pos
    }
}

/// Marks the widget as hovered and shows its base colour darkened. The
/// darkened colour is always computed from the base colour, so entering
/// twice darkens once.
pub fn button_darken_on_hover(b: &mut Buttons)
    ensures
        final(b)@ == old(b)@.hover_enter(),
        final(b)@.wf(),
{
    b.set_hovering(true);
    let shown = match b.get_orig_color() {
        Some(c) => Some(darkened(c)),
        None => None,
    };
    b.set_color(shown);
}

/// Marks the widget as idle and shows its base colour again.
pub fn button_restore_color(b: &mut Buttons)
    ensures
        final(b)@ == old(b)@.hover_exit(),
        final(b)@.wf(),
{
    b.set_hovering(false);
    let base = b.get_orig_color();
    b.set_color(base);
}

/// Leaving a widget after entering it any number of times, also zero,
/// shows its base colour again, and leaves the base colour as it was.
pub proof fn lemma_hover_round_trip(b: ButtonsView, n: nat)
    ensures
        b.hover_enter_times(n).hover_exit().color == b.orig_color,
        b.hover_enter_times(n).hover_exit().orig_color == b.orig_color,
        b.hover_enter_times(n).hover_exit() == b.hover_exit(),
    decreases n,
{
    if n > 0 {
        lemma_hover_round_trip(b, (n - 1) as nat);
    }
}

/// Entering a widget that is already entered changes nothing.
pub proof fn lemma_hover_enter_idempotent(b: ButtonsView)
    ensures
        b.hover_enter().hover_enter() == b.hover_enter(),
{
}

} // verus!
