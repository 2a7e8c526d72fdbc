//! A bar: a row of widgets laid out left to right with the same padding
//! around each, and the routing of pointer events to the widget under the
//! pointer.

use crate::button::{is_click_of, Buttons, ButtonsView, ClickAction};
use crate::geometry::{covers, Color, FillRect, Point, Rect};
use vstd::prelude::*;

verus! {

/// Width of a bar without widgets, which serves as a header.
pub const HEADER_WIDTH: u32 = 800;

/// Height of a bar without widgets.
pub const HEADER_HEIGHT: u32 = 60;

/// Horizontal distance from a bar's origin to the origin of its `i`-th
/// widget: the padding, then each earlier widget followed by the padding.
/// At `i == buttons.len()` this is the width of the whole row.
pub open spec fn child_offset(buttons: Seq<ButtonsView>, padding: nat, i: int) -> int
    decreases i,
{
    if i <= 0 {
        padding as int
    } else {
        child_offset(buttons, padding, i - 1) + buttons[i - 1].w + padding
    }
}

/// The widths of the first `n` widgets, added up.
pub open spec fn total_width(buttons: Seq<ButtonsView>, n: int) -> int
    decreases n,
{
    if n <= 0 {
        0
    } else {
        total_width(buttons, n - 1) + buttons[n - 1].w
    }
}

/// Height of the tallest of the first `n` widgets.
pub open spec fn tallest(buttons: Seq<ButtonsView>, n: int) -> nat
    decreases n,
{
    if n <= 0 {
        0
    } else if buttons[n - 1].h > tallest(buttons, n - 1) {
        buttons[n - 1].h
    } else {
        tallest(buttons, n - 1)
    }
}

/// Width of a bar around these widgets.
pub open spec fn derived_width(buttons: Seq<ButtonsView>, padding: nat) -> int {
    if buttons.len() == 0 {
        HEADER_WIDTH as int
    } else {
        child_offset(buttons, padding, buttons.len() as int)
    }
}

/// Height of a bar around these widgets.
pub open spec fn derived_height(buttons: Seq<ButtonsView>, padding: nat) -> int {
    if buttons.len() == 0 {
        HEADER_HEIGHT as int
    } else {
        (tallest(buttons, buttons.len() as int) + 2 * padding) as int
    }
}

/// Whether a bar at `(x, y)` around these widgets lies within the
/// coordinates that a position can hold.
pub open spec fn layout_fits(x: i32, y: i32, padding: nat, buttons: Seq<ButtonsView>) -> bool {
    &&& x + derived_width(buttons, padding) <= i32::MAX
    &&& y + derived_height(buttons, padding) <= i32::MAX
}

/// What a widget becomes when the pointer moves and is then over it, or
/// not: it enters only if it was idle, and leaves only if it was entered.
pub open spec fn hover_step(b: ButtonsView, over: bool) -> ButtonsView {
    if over && !b.is_hovering {
        b.hover_enter()
    } else if !over && b.is_hovering {
        b.hover_exit()
    } else {
        b
    }
}

/// A row of widgets.
#[derive(Debug)]
pub struct Bar {
    pub pos: Point,
    pub w: u32,
    pub h: u32,
    pub padding: u32,
    pub color: Option<Color>,
    pub orig_color: Option<Color>,
    pub is_hovering: bool,
    pub buttons: Vec<Buttons>,
}

/// What a bar is, as plain values.
pub struct BarView {
    pub pos: Point,
    pub w: nat,
    pub h: nat,
    pub padding: nat,
    pub color: Option<Color>,
    pub orig_color: Option<Color>,
    pub is_hovering: bool,
    pub buttons: Seq<ButtonsView>,
}

impl BarView {
    /// Horizontal position of the `i`-th widget.
    pub open spec fn child_x(self, i: int) -> int {
        self.pos.x + child_offset(self.buttons, self.padding, i)
    }

    /// Vertical position of every widget.
    pub open spec fn child_y(self) -> int {
        self.pos.y + self.padding
    }

    /// Whether the pointer at `(px, py)` is over the `i`-th widget.
    pub open spec fn covered(self, i: int, px: int, py: int) -> bool {
        covers(
            self.child_x(i),
            self.child_y(),
            self.buttons[i].w as int,
            self.buttons[i].h as int,
            px,
            py,
        )
    }

    /// The first widget from `from` on that the pointer is over.
    pub open spec fn first_covered(self, px: int, py: int, from: int) -> Option<int>
        decreases self.buttons.len() - from,
    {
        if from < 0 || from >= self.buttons.len() {
            None
        } else if self.covered(from, px, py) {
            Some(from)
        } else {
            self.first_covered(px, py, from + 1)
        }
    }

    /// The widget that a pointer event at `(px, py)` goes to.
    pub open spec fn locate(self, px: int, py: int) -> Option<int> {
        self.first_covered(px, py, 0)
    }

    /// The bar's size is the one its widgets give it, and the bar lies
    /// within the coordinates that a position can hold.
    pub open spec fn wf(self) -> bool {
        &&& self.w == derived_width(self.buttons, self.padding)
        &&& self.h == derived_height(self.buttons, self.padding)
        &&& layout_fits(self.pos.x, self.pos.y, self.padding, self.buttons)
    }

    /// Whether the pointer is within the bar's own rectangle.
    pub open spec fn contains(self, px: int, py: int) -> bool {
        covers(self.pos.x as int, self.pos.y as int, self.w as int, self.h as int, px, py)
    }

    /// The bar after the pointer moved to `(px, py)`.
    pub open spec fn hovered(self, px: int, py: int) -> BarView {
        BarView {
            buttons: Seq::new(
                self.buttons.len(),
                |i: int| hover_step(self.buttons[i], self.covered(i, px, py)),
            ),
            ..self
        }
    }

    /// The bar after the pointer left it.
    pub open spec fn unhovered(self) -> BarView {
        BarView { buttons: self.buttons.map_values(|b: ButtonsView| b.hover_exit()), ..self }
    }

    /// Every widget shows the colour that its state asks for.
    pub open spec fn children_wf(self) -> bool {
        forall|i: int| 0 <= i < self.buttons.len() ==> (#[trigger] self.buttons[i]).wf()
    }
}

/// The views of a list of widgets, in order.
pub open spec fn button_views(buttons: Seq<Buttons>) -> Seq<ButtonsView> {
    buttons.map_values(|b: Buttons| b@)
}

impl View for Bar {
    type V = BarView;

    open spec fn view(&self) -> BarView {
        BarView {
            pos: self.pos,
            w: self.w as nat,
            h: self.h as nat,
            padding: self.padding as nat,
            color: self.color,
            orig_color: self.orig_color,
            is_hovering: self.is_hovering,
            buttons: button_views(self.buttons@),
        }
    }
}

impl Clone for Bar {
    fn clone(&self) -> (bar: Self)
        ensures
            bar@ == self@,
    {
        let mut buttons: Vec<Buttons> = Vec::new();
        let mut i: usize = 0;
        while i < self.buttons.len()
            invariant
                i <= self.buttons.len(),
                buttons@ == self.buttons@.take(i as int),
            decreases self.buttons.len() - i,
        {
            buttons.push(self.buttons[i].clone());
            assert(buttons@ =~= self.buttons@.take(i as int + 1));
            i = i + 1;
        }
        assert(self.buttons@.take(self.buttons.len() as int) =~= self.buttons@);
        Bar {
            pos: self.pos,
            w: self.w,
            h: self.h,
            padding: self.padding,
            color: self.color,
            orig_color: self.orig_color,
            is_hovering: self.is_hovering,
            buttons,
        }
    }
}

/// Widgets further right start further right.
pub proof fn lemma_child_offset_monotone(buttons: Seq<ButtonsView>, padding: nat, i: int, j: int)
    requires
        i <= j,
    ensures
        padding <= child_offset(buttons, padding, i) <= child_offset(buttons, padding, j),
    decreases j,
{
    if j <= 0 {
    } else if i == j {
        lemma_child_offset_monotone(buttons, padding, i - 1, j - 1);
    } else {
        lemma_child_offset_monotone(buttons, padding, i, j - 1);
    }
}

/// No widget among the first `n` is taller than the tallest of them.
pub proof fn lemma_tallest_bounds(buttons: Seq<ButtonsView>, n: int, i: int)
    requires
        0 <= i < n,
    ensures
        buttons[i].h <= tallest(buttons, n),
    decreases n,
{
    if i < n - 1 {
        lemma_tallest_bounds(buttons, n - 1, i);
    }
}

/// Offsets and heights depend on the sizes of the widgets alone.
pub proof fn lemma_layout_depends_on_sizes(
    a: Seq<ButtonsView>,
    b: Seq<ButtonsView>,
    padding: nat,
    n: int,
)
    requires
        n <= a.len(),
        n <= b.len(),
        forall|i: int| 0 <= i < n ==> a[i].w == b[i].w && a[i].h == b[i].h,
    ensures
        child_offset(a, padding, n) == child_offset(b, padding, n),
        tallest(a, n) == tallest(b, n),
    decreases n,
{
    if n > 0 {
        lemma_layout_depends_on_sizes(a, b, padding, n - 1);
    }
}

/// Three widgets of 25 by 10 with a padding of 1 make a bar of 79 by 12,
/// wherever the bar stands and whatever else the widgets are.
pub proof fn lemma_three_widgets_of_25_by_10(buttons: Seq<ButtonsView>)
    requires
        buttons.len() == 3,
        forall|i: int| 0 <= i < 3 ==> buttons[i].w == 25 && buttons[i].h == 10,
    ensures
        derived_width(buttons, 1) == 25 * 3 + 1 * 4,
        derived_height(buttons, 1) == 10 + 2 * 1,
{
    reveal_with_fuel(child_offset, 4);
    reveal_with_fuel(tallest, 4);
}

/// The width of a row is the widths of its widgets and the padding before,
/// between and after them. The tallest widget is one of the widgets, and
/// none is taller.
pub proof fn lemma_derived_size(buttons: Seq<ButtonsView>, padding: nat, n: int)
    requires
        0 <= n <= buttons.len(),
    ensures
        child_offset(buttons, padding, n) == total_width(buttons, n) + padding * (n + 1),
        forall|i: int| 0 <= i < n ==> buttons[i].h <= tallest(buttons, n),
        n > 0 ==> exists|i: int| 0 <= i < n && buttons[i].h == tallest(buttons, n),
    decreases n,
{
    if n > 0 {
        lemma_derived_size(buttons, padding, n - 1);
        assert(padding * (n + 1) == padding * n + padding) by (nonlinear_arith);
        assert forall|i: int| 0 <= i < n implies buttons[i].h <= tallest(buttons, n) by {
            lemma_tallest_bounds(buttons, n, i);
        }
        if buttons[n - 1].h > tallest(buttons, n - 1) || n == 1 {
            assert(buttons[n - 1].h == tallest(buttons, n));
        } else {
            let i = choose|i: int| 0 <= i < n - 1 && buttons[i].h == tallest(buttons, n - 1);
            assert(buttons[i].h == tallest(buttons, n));
        }
    }
}

/// Where every widget shows the colour its state asks for, a pointer move
/// leaves exactly the widgets under the pointer entered.
pub proof fn lemma_hover_step_of_wf(b: ButtonsView, over: bool)
    requires
        b.wf(),
    ensures
        hover_step(b, over) == if over {
            b.hover_enter()
        } else {
            b.hover_exit()
        },
        hover_step(b, over).wf(),
        hover_step(b, over).is_hovering == over,
{
}

/// Whether the pointer is over a widget whose origin is `button_pos`. The
/// edges belong to the widget.
pub fn mouse_within_button(
    mouse_x: i32,
    mouse_y: i32,
    button_pos: Point,
    button: &Buttons,
) -> (over: bool)
    ensures
        over == covers(
            button_pos.x as int,
            button_pos.y as int,
            button@.w as int,
            button@.h as int,
            mouse_x as int,
            mouse_y as int,
        ),
{
    let (w, h) = button.get_w_h();
    Rect::new(button_pos.x, button_pos.y, w, h).contains(mouse_x, mouse_y)
}

impl Bar {
    /// Works out the size of a bar at `(x, y)` around these widgets, where
    /// such a bar lies within the coordinates that a position can hold,
    /// and `None` where it does not.
    pub fn measure(
        x: i32,
        y: i32,
        padding: u32,
        buttons: &Vec<Buttons>,
    ) -> (size: Option<(u32, u32)>)
        ensures
            size is Some <==> layout_fits(x, y, padding as nat, button_views(buttons@)),
            size matches Some((w, h)) ==> {
                &&& w == derived_width(button_views(buttons@), padding as nat)
                &&& h == derived_height(button_views(buttons@), padding as nat)
            },
    {
        let ghost views = button_views(buttons@);
        let limit: i64 = i32::MAX as i64;
        if buttons.len() == 0 {
            if x as i64 + HEADER_WIDTH as i64 <= limit && y as i64 + HEADER_HEIGHT as i64
                <= limit {
                return Some((HEADER_WIDTH, HEADER_HEIGHT));
            }
            return None;
        }
        let mut right: i64 = x as i64 + padding as i64;
        let mut tall: u32 = 0;
        let mut i: usize = 0;
        while i < buttons.len()
            invariant
                i <= buttons.len(),
                views == button_views(buttons@),
                limit == i32::MAX,
                right == x + child_offset(views, padding as nat, i as int),
                right <= limit + 2 * u32::MAX,
                tall == tallest(views, i as int),
            decreases buttons.len() - i,
        {
            if right > limit {
                proof {
                    lemma_child_offset_monotone(
                        views,
                        padding as nat,
                        i as int,
                        buttons.len() as int,
                    );
                }
                return None;
            }
            let (w, h) = buttons[i].get_w_h();
            right = right + w as i64 + padding as i64;
            if h > tall {
                tall = h;
            }
            i = i + 1;
        }
        proof {
            lemma_child_offset_monotone(views, padding as nat, 0, buttons.len() as int);
        }
        let bottom: i64 = y as i64 + tall as i64 + 2 * (padding as i64);
        if right <= limit && bottom <= limit {
            Some(((right - x as i64) as u32, (bottom - y as i64) as u32))
        } else {
            None
        }
    }

    /// Tells whether a bar at `(x, y)` around these widgets lies within
    /// the coordinates that a position can hold. `new` asks for this.
    pub fn fits(x: i32, y: i32, padding: u32, buttons: &Vec<Buttons>) -> (ok: bool)
        ensures
            ok == layout_fits(x, y, padding as nat, button_views(buttons@)),
    {
        Bar::measure(x, y, padding, buttons).is_some()
    }

    /// Tells whether the bar has the size that its widgets give it, and
    /// lies within the coordinates that a position can hold.
    pub fn is_well_formed(&self) -> (ok: bool)
        ensures
            ok == self@.wf(),
    {
        match Bar::measure(self.pos.x, self.pos.y, self.padding, &self.buttons) {
            Some((w, h)) => self.w == w && self.h == h,
            None => false,
        }
    }

    /// A bar at `(x, y)` around the given widgets, sized to hold them with
    /// `padding` on every side and between neighbours. Without widgets the
    /// bar is a header of fixed size.
    pub fn new(
        x: i32,
        y: i32,
        padding: u32,
        color: Option<Color>,
        buttons: Vec<Buttons>,
    ) -> (bar: Bar)
        requires
            layout_fits(x, y, padding as nat, button_views(buttons@)),
        ensures
            bar@ == (BarView {
                pos: Point { x, y },
                w: derived_width(button_views(buttons@), padding as nat) as nat,
                h: derived_height(button_views(buttons@), padding as nat) as nat,
                padding: padding as nat,
                color,
                orig_color: color,
                is_hovering: false,
                buttons: button_views(buttons@),
            }),
            bar.buttons == buttons,
            bar@.wf(),
    {
        let (w, h) = Bar::measure(x, y, padding, &buttons).unwrap();
        Bar {
            pos: Point::new(x, y),
            w,
            h,
            padding,
            color,
            orig_color: color,
            is_hovering: false,
            buttons,
        }
    }
}

/// From `from` on the pointer is over no widget, so nothing is located
/// from there.
pub proof fn lemma_none_covered(bar: BarView, px: int, py: int, from: int)
    requires
        0 <= from,
        forall|j: int| from <= j < bar.buttons.len() ==> !bar.covered(j, px, py),
    ensures
        bar.first_covered(px, py, from) is None,
    decreases bar.buttons.len() - from,
{
    if from < bar.buttons.len() {
        lemma_none_covered(bar, px, py, from + 1);
    }
}

/// What `locate` finds is a widget of the bar under the pointer, and the
/// leftmost such; it finds nothing only where the pointer is over none.
pub proof fn lemma_locate_is_first(bar: BarView, px: int, py: int, from: int)
    requires
        0 <= from,
    ensures
        match bar.first_covered(px, py, from) {
            Some(i) => {
                &&& from <= i < bar.buttons.len()
                &&& bar.covered(i, px, py)
                &&& forall|j: int| from <= j < i ==> !bar.covered(j, px, py)
            },
            None => forall|j: int| from <= j < bar.buttons.len() ==> !bar.covered(j, px, py),
        },
    decreases bar.buttons.len() - from,
{
    if from < bar.buttons.len() && !bar.covered(from, px, py) {
        lemma_locate_is_first(bar, px, py, from + 1);
    }
}

/// A widget that starts right of the pointer is not under it, nor is any
/// widget after it.
pub proof fn lemma_right_of_pointer(bar: BarView, px: int, py: int, i: int)
    requires
        0 <= i,
        bar.child_x(i) > px,
    ensures
        forall|j: int| i <= j < bar.buttons.len() ==> !bar.covered(j, px, py),
{
    assert forall|j: int| i <= j < bar.buttons.len() implies !bar.covered(j, px, py) by {
        lemma_child_offset_monotone(bar.buttons, bar.padding, i, j);
    }
}

impl Bar {
    /// Three sample buttons in a gray bar at the origin, one pixel apart.
    pub fn sample() -> (bar: Bar)
        ensures
            bar@.wf(),
            bar@.pos == (Point { x: 0, y: 0 }),
            bar@.padding == 1,
            bar@.w == 79,
            bar@.h == 12,
            bar@.color == Some(Color::spec_gray()),
            bar@.orig_color == Some(Color::spec_gray()),
            !bar@.is_hovering,
            bar@.buttons == seq![
                Buttons::sample_view(),
                Buttons::sample_view(),
                Buttons::sample_view(),
            ],
    {
        let mut buttons: Vec<Buttons> = Vec::new();
        buttons.push(Buttons::sample());
        buttons.push(Buttons::sample());
        buttons.push(Buttons::sample());
        proof {
            let views = button_views(buttons@);
            assert(views =~= seq![
                Buttons::sample_view(),
                Buttons::sample_view(),
                Buttons::sample_view(),
            ]);
            reveal_with_fuel(child_offset, 4);
            reveal_with_fuel(tallest, 4);
            assert(child_offset(views, 1, 3) == 79);
            assert(tallest(views, 3) == 10);
        }
        Bar::new(0, 0, 1, Some(Color::gray()), buttons)
    }

    /// The bar's own rectangle.
    pub fn bounds(&self) -> (r: Rect)
        ensures
            r == (Rect { x: self.pos.x, y: self.pos.y, w: self.w, h: self.h }),
            forall|px: int, py: int| r.spec_contains(px, py) == self@.contains(px, py),
    {
        Rect::new(self.pos.x, self.pos.y, self.w, self.h)
    }

    /// Finds the widget under the pointer: the leftmost one whose
    /// rectangle holds `(x, y)`, with its origin. Every pointer position
    /// is answered; one that is over no widget gives `None`.
    pub fn locate(&self, x: i32, y: i32) -> (found: Option<(usize, Point)>)
        ensures
            match found {
                Some((i, origin)) => {
                    &&& self@.locate(x as int, y as int) == Some(i as int)
                    &&& i < self.buttons.len()
                    &&& origin.x == self@.child_x(i as int)
                    &&& origin.y == self@.child_y()
                },
                None => self@.locate(x as int, y as int) is None,
            },
    {
        let ghost bar = self@;
        let px: i64 = x as i64;
        let py: i64 = y as i64;
        let cur_y: i64 = self.pos.y as i64 + self.padding as i64;
        let mut cur_x: i64 = self.pos.x as i64 + self.padding as i64;
        let mut i: usize = 0;
        while i < self.buttons.len()
            invariant
                i <= self.buttons.len(),
                bar == self@,
                px == x,
                py == y,
                cur_y == bar.child_y(),
                cur_x == bar.child_x(i as int),
                cur_x <= i32::MAX + 2 * u32::MAX,
                bar.locate(x as int, y as int) == bar.first_covered(x as int, y as int, i as int),
            decreases self.buttons.len() - i,
        {
            if cur_x > px {
                proof {
                    lemma_right_of_pointer(bar, x as int, y as int, i as int);
                    lemma_none_covered(bar, x as int, y as int, i as int);
                }
                return None;
            }
            let (w, h) = self.buttons[i].get_w_h();
            proof {
                lemma_child_offset_monotone(bar.buttons, bar.padding, 0, i as int);
            }
            if px <= cur_x + w as i64 && py >= cur_y && py <= cur_y + h as i64 {
                return Some((i, Point::new(cur_x as i32, cur_y as i32)));
            }
            cur_x = cur_x + w as i64 + self.padding as i64;
            i = i + 1;
        }
        None
    }

    /// The pointer left the bar: every widget goes idle.
    pub fn unhover(&mut self)
        ensures
            final(self)@ == old(self)@.unhovered(),
            old(self)@.wf() ==> final(self)@.wf(),
            final(self)@.children_wf(),
    {
        let ghost before = self@;
        let mut i: usize = 0;
        while i < self.buttons.len()
            invariant
                i <= self.buttons.len(),
                self.buttons.len() == before.buttons.len(),
                self@ == (BarView { buttons: self@.buttons, ..before }),
                forall|j: int| 0 <= j < i ==> self@.buttons[j] == before.buttons[j].hover_exit(),
                forall|j: int|
                    i <= j < self.buttons.len() ==> self@.buttons[j] == before.buttons[j],
            decreases self.buttons.len() - i,
        {
            let ghost prev = self.buttons@;
            self.buttons[i].mouse_off();
            proof {
                assert(self.buttons@ == prev.update(i as int, self.buttons@[i as int]));
                assert forall|j: int| 0 <= j < self.buttons.len() && j != i implies (
                #[trigger] self@.buttons[j]) == button_views(prev)[j] by {
                    assert(self.buttons@[j] == prev[j]);
                }
            }
            i = i + 1;
        }
        proof {
            assert(self@.buttons =~= before.unhovered().buttons);
            lemma_layout_depends_on_sizes(
                self@.buttons,
                before.buttons,
                before.padding,
                before.buttons.len() as int,
            );
        }
    }

    /// The pointer moved to `(x, y)`: every widget is brought in line with
    /// whether the pointer is now over it.
    pub fn hover(&mut self, x: i32, y: i32)
        ensures
            final(self)@ == old(self)@.hovered(x as int, y as int),
            old(self)@.wf() ==> final(self)@.wf(),
            old(self)@.children_wf() ==> final(self)@.children_wf(),
    {
        sample_hover(x, y, self);
    }

    /// A click at `mouse_pos`: it goes to the widget that `locate` finds,
    /// and what that widget asks for is handed on. A click over no widget
    /// gives `None`. The bar does not change.
    pub fn click(&mut self, mouse_pos: Point) -> (action: Option<ClickAction>)
        ensures
            final(self)@ == old(self)@,
            match action {
                Some(a) => {
                    &&& old(self)@.locate(mouse_pos.x as int, mouse_pos.y as int) matches Some(i)
                    &&& is_click_of(a, old(self)@.buttons[i], mouse_pos)
                },
                None => old(self)@.locate(mouse_pos.x as int, mouse_pos.y as int) is None,
            },
    {
        sample_click(mouse_pos, self)
    }

    /// What the renderer paints for the bar: first the bar's own
    /// rectangle, then one rectangle for each widget, in order, each at
    /// its place in the row and in the colour it now shows. Positions and
    /// sizes are in physical pixels.
    pub fn draw(&self, hidpi_scale: u32) -> (fills: Vec<FillRect>)
        requires
            self@.wf(),
        ensures
            fills.len() == self.buttons.len() + 1,
            fills[0].color == self@.color,
            fills[0].area.x == self@.pos.x * hidpi_scale,
            fills[0].area.y == self@.pos.y * hidpi_scale,
            fills[0].area.w == self@.w * hidpi_scale,
            fills[0].area.h == self@.h * hidpi_scale,
            forall|i: int|
                0 <= i < self.buttons.len() ==> {
                    &&& (#[trigger] fills[i + 1]).color == self@.buttons[i].color
                    &&& fills[i + 1].area.x == self@.child_x(i) * hidpi_scale
                    &&& fills[i + 1].area.y == self@.child_y() * hidpi_scale
                    &&& fills[i + 1].area.w == self@.buttons[i].w * hidpi_scale
                    &&& fills[i + 1].area.h == self@.buttons[i].h * hidpi_scale
                },
    {
        let ghost bar = self@;
        let mut fills: Vec<FillRect> = Vec::new();
        fills.push(FillRect { area: self.bounds().to_physical(hidpi_scale), color: self.color });
        if self.buttons.len() == 0 {
            return fills;
        }
        proof {
            lemma_child_offset_monotone(bar.buttons, bar.padding, 0, bar.buttons.len() as int);
            lemma_tallest_bounds(bar.buttons, bar.buttons.len() as int, 0);
        }
        let cur_y: i32 = (self.pos.y as i64 + self.padding as i64) as i32;
        let mut cur_x: i64 = self.pos.x as i64 + self.padding as i64;
        let mut i: usize = 0;
        while i < self.buttons.len()
            invariant
                i <= self.buttons.len(),
                bar == self@,
                bar.wf(),
                bar.buttons.len() > 0,
                cur_y == bar.child_y(),
                cur_x == bar.child_x(i as int),
                fills.len() == i + 1,
                fills[0].color == bar.color,
                fills[0].area.x == bar.pos.x * hidpi_scale,
                fills[0].area.y == bar.pos.y * hidpi_scale,
                fills[0].area.w == bar.w * hidpi_scale,
                fills[0].area.h == bar.h * hidpi_scale,
                forall|j: int|
                    0 <= j < i ==> {
                        &&& (#[trigger] fills[j + 1]).color == bar.buttons[j].color
                        &&& fills[j + 1].area.x == bar.child_x(j) * hidpi_scale
                        &&& fills[j + 1].area.y == bar.child_y() * hidpi_scale
                        &&& fills[j + 1].area.w == bar.buttons[j].w * hidpi_scale
                        &&& fills[j + 1].area.h == bar.buttons[j].h * hidpi_scale
                    },
            decreases self.buttons.len() - i,
        {
            proof {
                lemma_child_offset_monotone(bar.buttons, bar.padding, 0, i as int);
                lemma_child_offset_monotone(
                    bar.buttons,
                    bar.padding,
                    i as int + 1,
                    bar.buttons.len() as int,
                );
            }
            let b = &self.buttons[i];
            let fill = b.draw(hidpi_scale, Point::new(cur_x as i32, cur_y));
            let ghost before = fills@;
            fills.push(fill);
            assert(forall|j: int| 0 <= j <= i ==> fills[j] == before[j]);
            cur_x = cur_x + b.get_w() as i64 + self.padding as i64;
            i = i + 1;
        }
        fills
    }
}

/// Brings every widget of the bar in line with the pointer at `(x, y)`:
/// an idle widget under the pointer is entered, an entered widget that the
/// pointer is no longer over is left, and the others stay as they are.
pub fn sample_hover(x: i32, y: i32, bar: &mut Bar)
    ensures
        final(bar)@ == old(bar)@.hovered(x as int, y as int),
        old(bar)@.wf() ==> final(bar)@.wf(),
        old(bar)@.children_wf() ==> final(bar)@.children_wf(),
{
    let ghost before = bar@;
    let px: i64 = x as i64;
    let py: i64 = y as i64;
    let cur_y: i64 = bar.pos.y as i64 + bar.padding as i64;
    // Once a widget starts right of the pointer, `cur_x` stays where it is:
    // no later widget can be under the pointer.
    let mut cur_x: i64 = bar.pos.x as i64 + bar.padding as i64;
    let mut i: usize = 0;
    while i < bar.buttons.len()
        invariant
            i <= bar.buttons.len(),
            bar.buttons.len() == before.buttons.len(),
            bar@ == (BarView { buttons: bar@.buttons, ..before }),
            px == x,
            py == y,
            cur_y == before.child_y(),
            cur_x <= before.child_x(i as int),
            cur_x == before.child_x(i as int) || cur_x > px,
            cur_x <= i32::MAX + 2 * u32::MAX,
            forall|j: int|
                0 <= j < i ==> bar@.buttons[j] == hover_step(
                    before.buttons[j],
                    before.covered(j, x as int, y as int),
                ),
            forall|j: int| i <= j < bar.buttons.len() ==> bar@.buttons[j] == before.buttons[j],
        decreases bar.buttons.len() - i,
    {
        let (w, h) = bar.buttons[i].get_w_h();
        let mouse_is_over = cur_x <= px && px <= cur_x + w as i64 && py >= cur_y && py <= cur_y
            + h as i64;
        assert(mouse_is_over == before.covered(i as int, x as int, y as int));
        let hovering = bar.buttons[i].get_hovering();
        let mouse_on = mouse_is_over && !hovering;
        let mouse_off = !mouse_is_over && hovering;
        let ghost prev = bar.buttons@;
        if mouse_on {
            bar.buttons[i].hover(x, y);
        } else if mouse_off {
            bar.buttons[i].mouse_off();
        }
        proof {
            assert(bar.buttons@ =~= prev.update(i as int, bar.buttons@[i as int]));
            assert forall|j: int| 0 <= j < bar.buttons.len() && j != i implies (
            #[trigger] bar@.buttons[j]) == button_views(prev)[j] by {
                assert(bar.buttons@[j] == prev[j]);
            }
        }
        if cur_x <= px {
            cur_x = cur_x + w as i64 + bar.padding as i64;
        } else {
            proof {
                lemma_child_offset_monotone(before.buttons, before.padding, i as int, i as int + 1);
            }
        }
        i = i + 1;
    }
    proof {
        assert(bar@.buttons =~= before.hovered(x as int, y as int).buttons);
        lemma_layout_depends_on_sizes(
            bar@.buttons,
            before.buttons,
            before.padding,
            before.buttons.len() as int,
        );
        if before.children_wf() {
            assert forall|j: int| 0 <= j < bar@.buttons.len() implies (
            #[trigger] bar@.buttons[j]).wf() by {
                lemma_hover_step_of_wf(before.buttons[j], before.covered(j, x as int, y as int));
            }
        }
    }
}

/// Hands a click at `mouse_pos` to the widget under it, and hands back
/// what that widget asks for.
pub fn sample_click(mouse_pos: Point, bar: &mut Bar) -> (action: Option<ClickAction>)
    ensures
        final(bar)@ == old(bar)@,
        match action {
            Some(a) => {
                &&& old(bar)@.locate(mouse_pos.x as int, mouse_pos.y as int) matches Some(i)
                &&& is_click_of(a, old(bar)@.buttons[i], mouse_pos)
            },
            None => old(bar)@.locate(mouse_pos.x as int, mouse_pos.y as int) is None,
        },
{
    match bar.locate(mouse_pos.x, mouse_pos.y) {
        Some((i, _)) => {
            let ghost before = bar@;
            let action = bar.buttons[i].click(mouse_pos);
            assert(bar@.buttons =~= before.buttons);
            Some(action)
        },
        None => None,
    }
}

} // verus!
