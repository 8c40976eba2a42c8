//! A digital clock: hours, minutes and seconds, two digits each, with a spacer
//! between them.
//!
//! The clock is a composite widget. It owns five text boxes, lays them out in a
//! row with [`center_widgets`], and before it draws them it puts the time of
//! day into the three that show digits.

use crate::draw::{
    failure_views, failures_among, requests_of, Backend, Color, DrawCtx, DrawFailure,
    FailedDraw, PaintCall, PaintRequest, WidgetError,
};
use crate::geometry::{clamp_extent, extent_from, Align, Point, Rect};
use crate::text_box::{TextBox, TextBoxView};
use crate::time::TimeOfDay;
use crate::widget::{
    center_widgets, lemma_row_contained, row_align, row_fits, slot_rect, slots_of, targets,
    total_width, widths_before, Slot, Widget, FILL,
};
use vstd::prelude::*;
use vstd::string::*;

verus! {

/// `String::push` of the standard library appends one character to the
/// string. Trusted, not proved: afterwards the string holds what it held
/// before, followed by `ch`.
pub assume_specification[ String::push ](s: &mut String, ch: char)
    ensures
        final(s)@ == old(s)@.push(ch),
;

/// The anchor of a spacer along the vertical axis, in thousandths: a little
/// above the middle.
pub const SPACER_ANCHOR: u16 = 450;

/// The character that stands for `d` where `d` is a decimal digit.
pub open spec fn digit_char(d: int) -> char {
    ('0' as int + d) as char
}

/// The tens and the units of `n`, one character each.
pub open spec fn two_digits(n: u8) -> Seq<char> {
    seq![digit_char(n as int / 10), digit_char(n as int % 10)]
}

/// Writes `n` as two characters, the tens first. For numbers below one hundred
/// these are its decimal digits, with a zero in front where `n` has one digit.
pub fn format2digits(n: u8) -> (s: String)
    ensures
        s@ == two_digits(n),
{
    let mut s = String::new();
    s.push(('0' as u8 + n / 10) as char);
    s.push(('0' as u8 + n % 10) as char);
    proof {
        assert(s@ =~= two_digits(n));
    }
    s
}

/// Two-digit formatting: a number below one hundred comes out as exactly two
/// decimal digits that, read as tens and units, give the number back.
pub proof fn lemma_two_digits_decimal(n: u8)
    requires
        n < 100,
    ensures
        two_digits(n).len() == 2,
        '0' <= two_digits(n)[0] <= '9',
        '0' <= two_digits(n)[1] <= '9',
        10 * (two_digits(n)[0] as int - '0' as int) + (two_digits(n)[1] as int - '0' as int)
            == n,
{
}

/// What a clock is, as plain values. The five children are listed in the
/// order in which they stand in the row and are drawn.
pub struct ClockView {
    pub name: Seq<char>,
    pub desired_height: u32,
    pub area: Rect,
    pub h_align: Align,
    pub v_align: Align,
    pub hours: TextBoxView,
    pub spacer1: TextBoxView,
    pub minutes: TextBoxView,
    pub spacer2: TextBoxView,
    pub seconds: TextBoxView,
}

/// The slot that a text box takes in a row that is `height` tall.
pub open spec fn leaf_slot(leaf: TextBoxView, height: u32) -> Slot {
    Slot { width: leaf.desired_width(height), height: leaf.text_height, v_align: leaf.v_align }
}

impl ClockView {
    /// The children from left to right.
    pub open spec fn children(self) -> Seq<TextBoxView> {
        seq![self.hours, self.spacer1, self.minutes, self.spacer2, self.seconds]
    }

    /// The names of the children from left to right.
    pub open spec fn child_names(self) -> Seq<Seq<char>> {
        seq![
            self.hours.name,
            self.spacer1.name,
            self.minutes.name,
            self.spacer2.name,
            self.seconds.name,
        ]
    }

    /// The slots of the children in a row that is `height` tall.
    pub open spec fn slots(self, height: u32) -> Seq<Slot> {
        seq![
            leaf_slot(self.hours, height),
            leaf_slot(self.spacer1, height),
            leaf_slot(self.minutes, height),
            leaf_slot(self.spacer2, height),
            leaf_slot(self.seconds, height),
        ]
    }

    /// What the five children would like to be wide, added up.
    pub open spec fn children_width(self, height: u32) -> int {
        self.hours.desired_width(height) + self.spacer1.desired_width(height)
            + self.minutes.desired_width(height) + self.spacer2.desired_width(height)
            + self.seconds.desired_width(height)
    }

    /// The width the clock would like when it is `height` tall: that of its
    /// children together, or the largest extent where that is less.
    pub open spec fn desired_width(self, height: u32) -> u32 {
        clamp_extent(self.children_width(height))
    }

    /// Where child `i` lies once the clock has been given `area`. The row is
    /// placed by the alignment of the hours.
    pub open spec fn child_rect(self, area: Rect, i: int) -> Rect {
        slot_rect(area, self.hours.h_align, self.slots(area.height), i)
    }

    /// The clock lying in `area`, its children laid out in a row inside it.
    pub open spec fn resized(self, area: Rect) -> ClockView {
        ClockView {
            area,
            hours: self.hours.with_area(self.child_rect(area, 0)),
            spacer1: self.spacer1.with_area(self.child_rect(area, 1)),
            minutes: self.minutes.with_area(self.child_rect(area, 2)),
            spacer2: self.spacer2.with_area(self.child_rect(area, 3)),
            seconds: self.seconds.with_area(self.child_rect(area, 4)),
            ..self
        }
    }

    /// The clock showing `time`: the three digit boxes get new text, and
    /// nothing else changes.
    pub open spec fn showing(self, time: TimeOfDay) -> ClockView {
        ClockView {
            hours: self.hours.with_text(two_digits(time.hour)),
            minutes: self.minutes.with_text(two_digits(time.minute)),
            seconds: self.seconds.with_text(two_digits(time.second)),
            ..self
        }
    }

    /// What the children ask the backend to paint, in the order in which they
    /// are drawn.
    pub open spec fn paint_requests(self) -> Seq<PaintRequest> {
        seq![
            self.hours.paint_request(),
            self.spacer1.paint_request(),
            self.minutes.paint_request(),
            self.spacer2.paint_request(),
            self.seconds.paint_request(),
        ]
    }
}

/// Between the histories `before` and `after` every child of `clock` was sent
/// to the backend once, in order, and nothing else was.
pub open spec fn drew_children(
    clock: ClockView,
    before: Seq<PaintCall>,
    after: Seq<PaintCall>,
) -> bool {
    &&& before.is_prefix_of(after)
    &&& after.len() == before.len() + 5
    &&& requests_of(after.skip(before.len() as int)) == clock.paint_requests()
}

/// A clock made of five text boxes: hours, spacer, minutes, spacer, seconds.
#[derive(Debug)]
pub struct Clock {
    name: String,
    desired_height: u32,
    area: Rect,
    h_align: Align,
    v_align: Align,
    hours: TextBox,
    spacer1: TextBox,
    minutes: TextBox,
    spacer2: TextBox,
    seconds: TextBox,
}

impl View for Clock {
    type V = ClockView;

    closed spec fn view(&self) -> ClockView {
        ClockView {
            name: self.name@,
            desired_height: self.desired_height,
            area: self.area,
            h_align: self.h_align,
            v_align: self.v_align,
            hours: self.hours@,
            spacer1: self.spacer1@,
            minutes: self.minutes@,
            spacer2: self.spacer2@,
            seconds: self.seconds@,
        }
    }
}

impl Clock {
    /// A builder with nothing set.
    pub fn builder() -> (b: ClockBuilder)
        ensures
            b == ClockBuilder::unset(),
    {
        ClockBuilder::new()
    }

    pub fn hours(&self) -> (child: &TextBox)
        ensures
            child@ == self@.hours,
    {
        &self.hours
    }

    pub fn spacer1(&self) -> (child: &TextBox)
        ensures
            child@ == self@.spacer1,
    {
        &self.spacer1
    }

    pub fn minutes(&self) -> (child: &TextBox)
        ensures
            child@ == self@.minutes,
    {
        &self.minutes
    }

    pub fn spacer2(&self) -> (child: &TextBox)
        ensures
            child@ == self@.spacer2,
    {
        &self.spacer2
    }

    pub fn seconds(&self) -> (child: &TextBox)
        ensures
            child@ == self@.seconds,
    {
        &self.seconds
    }

    /// Puts `time` into the digit boxes, two characters each.
    pub fn set_time(&mut self, time: TimeOfDay)
        ensures
            final(self)@ == old(self)@.showing(time),
    {
        let hours = format2digits(time.hour);
        let minutes = format2digits(time.minute);
        let seconds = format2digits(time.second);
        self.hours.set_text(hours.as_str());
        self.minutes.set_text(minutes.as_str());
        self.seconds.set_text(seconds.as_str());
    }

    /// Puts the local time of day into the digit boxes. Which time that is
    /// depends on when the call is made; it is one that a dial can show.
    pub fn update_time(&mut self)
        ensures
            exists|time: TimeOfDay|
                time.on_the_dial() && final(self)@ == old(self)@.showing(time),
    {
        let time = TimeOfDay::now();
        self.set_time(time);
    }

    /// Shows `time` and draws the five children in order. A child that the
    /// backend refuses does not stop the others: it is reported in the result,
    /// by name and with the backend's message, and the next child is drawn.
    pub fn draw_at<B: Backend>(&mut self, ctx: &mut DrawCtx<B>, time: TimeOfDay) -> (failures:
        Vec<DrawFailure>)
        ensures
            final(self)@ == old(self)@.showing(time),
            drew_children(final(self)@, old(ctx).calls(), final(ctx).calls()),
            failure_views(failures@) == failures_among(
                final(self)@.child_names(),
                final(ctx).calls().skip(old(ctx).calls().len() as int),
                5,
            ),
    {
        self.set_time(time);
        let mut failures: Vec<DrawFailure> = Vec::new();
        let ghost names = self@.child_names();
        let ghost c0 = ctx.calls();
        let ghost from = c0.len() as int;
        assert(failure_views(failures@) =~= failures_among(names, c0.skip(from), 0));
        draw_child(&mut self.hours, ctx, &mut failures);
        let ghost c1 = ctx.calls();
        proof {
            assert(c1.drop_last() == c0);
            lemma_failures_among_grows(names, c0, c1, 0);
        }
        draw_child(&mut self.spacer1, ctx, &mut failures);
        let ghost c2 = ctx.calls();
        proof {
            assert(c2.drop_last() == c1);
            lemma_failures_among_grows(names, c0, c2, 1);
        }
        draw_child(&mut self.minutes, ctx, &mut failures);
        let ghost c3 = ctx.calls();
        proof {
            assert(c3.drop_last() == c2);
            lemma_failures_among_grows(names, c0, c3, 2);
        }
        draw_child(&mut self.spacer2, ctx, &mut failures);
        let ghost c4 = ctx.calls();
        proof {
            assert(c4.drop_last() == c3);
            lemma_failures_among_grows(names, c0, c4, 3);
        }
        draw_child(&mut self.seconds, ctx, &mut failures);
        let ghost c5 = ctx.calls();
        proof {
            assert(c5.drop_last() == c4);
            lemma_failures_among_grows(names, c0, c5, 4);
            let added = c5.skip(from);
            assert(added[0] == c1.last());
            assert(added[1] == c2.last());
            assert(added[2] == c3.last());
            assert(added[3] == c4.last());
            assert(added[4] == c5.last());
            assert(requests_of(added) =~= self@.paint_requests());
        }
        failures
    }
}

impl Widget for Clock {
    open spec fn spec_name(&self) -> Seq<char> {
        self@.name
    }

    open spec fn spec_area(&self) -> Rect {
        self@.area
    }

    open spec fn spec_h_align(&self) -> Align {
        self@.h_align
    }

    open spec fn spec_v_align(&self) -> Align {
        self@.v_align
    }

    open spec fn spec_desired_height(&self) -> u32 {
        self@.desired_height
    }

    open spec fn spec_desired_width(&self, height: u32) -> u32 {
        self@.desired_width(height)
    }

    closed spec fn resized(&self, area: Rect) -> Clock {
        Clock {
            area,
            hours: self.hours.resized(self@.child_rect(area, 0)),
            spacer1: self.spacer1.resized(self@.child_rect(area, 1)),
            minutes: self.minutes.resized(self@.child_rect(area, 2)),
            spacer2: self.spacer2.resized(self@.child_rect(area, 3)),
            seconds: self.seconds.resized(self@.child_rect(area, 4)),
            ..*self
        }
    }

    fn name(&self) -> (name: &str) {
        self.name.as_str()
    }

    fn area(&self) -> (area: Rect) {
        self.area
    }

    fn h_align(&self) -> (align: Align) {
        self.h_align
    }

    fn v_align(&self) -> (align: Align) {
        self.v_align
    }

    fn desired_height(&self) -> (height: u32) {
        self.desired_height
    }

    /// Adds up what the five children would like to be wide. Where the sum is
    /// an extent, it is the answer; a larger sum gives the largest extent.
    fn desired_width(&self, height: u32) -> (width: u32)
        ensures
            width == self@.desired_width(height),
            self@.children_width(height) <= u32::MAX ==> width == self@.children_width(height),
    {
        let sum: u64 = self.hours.desired_width(height) as u64 + self.spacer1.desired_width(
            height,
        ) as u64 + self.minutes.desired_width(height) as u64 + self.spacer2.desired_width(
            height,
        ) as u64 + self.seconds.desired_width(height) as u64;
        extent_from(sum as u128)
    }

    /// Lays the five children out in a row inside `area`, hours first, and
    /// takes `area` as the clock's own.
    fn resize(&mut self, area: Rect)
        ensures
            final(self)@ == old(self)@.resized(area),
    {
        let ghost before = *old(self);
        let mut row = [
            &mut self.hours,
            &mut self.spacer1,
            &mut self.minutes,
            &mut self.spacer2,
            &mut self.seconds,
        ];
        let ghost refs = row@;
        center_widgets(&mut row, area);
        proof {
            let was = targets(refs);
            let is = targets(row@);
            assert(slots_of(was, area.height) =~= before@.slots(area.height));
            assert(row_align(was) == before@.hours.h_align);
            assert(is[0] == was[0].resized(before@.child_rect(area, 0)));
            assert(is[1] == was[1].resized(before@.child_rect(area, 1)));
            assert(is[2] == was[2].resized(before@.child_rect(area, 2)));
            assert(is[3] == was[3].resized(before@.child_rect(area, 3)));
            assert(is[4] == was[4].resized(before@.child_rect(area, 4)));
            assert(*final(row@[0]) == *final(refs[0]));
            assert(*final(row@[1]) == *final(refs[1]));
            assert(*final(row@[2]) == *final(refs[2]));
            assert(*final(row@[3]) == *final(refs[3]));
            assert(*final(row@[4]) == *final(refs[4]));
        }
        self.area = area;
        proof {
            before.lemma_resized(area);
        }
    }

    /// Shows the local time of day and draws the five children in order.
    /// Whatever the backend answers, every child is sent to it once and the
    /// clock reports success.
    fn draw<B: Backend>(&mut self, ctx: &mut DrawCtx<B>) -> (outcome: Result<(), WidgetError>)
        ensures
            outcome is Ok,
            exists|time: TimeOfDay|
                time.on_the_dial() && final(self)@ == old(self)@.showing(time),
            drew_children(final(self)@, old(ctx).calls(), final(ctx).calls()),
    {
        let time = TimeOfDay::now();
        let _ = self.draw_at(ctx, time);
        Ok(())
    }

    /// The clock ignores clicks.
    fn click(&mut self, button: u32, point: Point) -> (outcome: Result<(), WidgetError>)
        ensures
            outcome is Ok,
            final(self)@ == old(self)@,
    {
        Ok(())
    }
}

impl Clock {
    /// Resizing a clock lays its children out and changes nothing else.
    pub proof fn lemma_resized(&self, area: Rect)
        ensures
            self.resized(area)@ == self@.resized(area),
    {
        self.hours.lemma_resized(self@.child_rect(area, 0));
        self.spacer1.lemma_resized(self@.child_rect(area, 1));
        self.minutes.lemma_resized(self@.child_rect(area, 2));
        self.spacer2.lemma_resized(self@.child_rect(area, 3));
        self.seconds.lemma_resized(self@.child_rect(area, 4));
    }
}

/// Aggregation: the width of the clock's row is the sum of what its five
/// children would like to be wide.
pub proof fn lemma_row_width_is_sum(clock: ClockView, height: u32)
    ensures
        total_width(clock.slots(height)) == clock.children_width(height),
{
    let slots = clock.slots(height);
    assert(widths_before(slots, 0) == 0);
    assert(widths_before(slots, 1) == widths_before(slots, 0) + slots[0].width);
    assert(widths_before(slots, 2) == widths_before(slots, 1) + slots[1].width);
    assert(widths_before(slots, 3) == widths_before(slots, 2) + slots[2].width);
    assert(widths_before(slots, 4) == widths_before(slots, 3) + slots[3].width);
    assert(widths_before(slots, 5) == widths_before(slots, 4) + slots[4].width);
}

/// Containment: where the row of children, aligned as the hours ask, lies
/// between the left and right edges of an area whose right edge is on the
/// grid, a clock resized to that area has every child between those edges,
/// each child begins where the one before it ends, and no two children share
/// a column.
///
/// The row lies between the edges whenever the children together are no wider
/// than the area and the hours are flush with either edge or centred on the
/// middle: see [`lemma_row_width_is_sum`] and `lemma_plain_alignments_fit`.
pub proof fn lemma_resize_keeps_children_inside(clock: ClockView, area: Rect)
    requires
        area.columns_on_grid(),
        row_fits(area, clock.hours.h_align, clock.slots(area.height)),
    ensures
        forall|i: int|
            0 <= i < 5 ==> (#[trigger] clock.resized(area).children()[i]).area.within_columns_of(
                area,
            ),
        forall|i: int|
            0 <= i < 4 ==> (#[trigger] clock.resized(area).children()[i]).area.right()
                == clock.resized(area).children()[i + 1].area.left(),
        forall|i: int, j: int|
            0 <= i < j < 5 ==> (#[trigger] clock.resized(
                area,
            ).children()[i]).area.columns_disjoint_from(
                (#[trigger] clock.resized(area).children()[j]).area,
            ),
{
    let slots = clock.slots(area.height);
    let h_align = clock.hours.h_align;
    lemma_row_contained(area, h_align, slots);
    let after = clock.resized(area).children();
    assert forall|i: int| 0 <= i < 5 implies (#[trigger] after[i]).area == slot_rect(
        area,
        h_align,
        slots,
        i,
    ) by {}
    assert forall|i: int| 0 <= i < 4 implies (#[trigger] after[i]).area.right() == after[i
        + 1].area.left() by {
        assert(after[i + 1].area == slot_rect(area, h_align, slots, i + 1));
    }
}

/// Idempotence: resizing a clock twice to the same area leaves it, and so
/// the rectangle of every child, as the first resize left it.
pub proof fn lemma_resize_idempotent(clock: ClockView, area: Rect)
    ensures
        clock.resized(area).resized(area) == clock.resized(area),
{
    let once = clock.resized(area);
    assert(once.slots(area.height) =~= clock.slots(area.height));
}

/// Naming: every child of a clock that was just built is called by the
/// clock's name directly followed by its part, so each child's name begins
/// with the clock's and no two children share a name.
pub proof fn lemma_children_are_named_apart(builder: ClockBuilder, name: Seq<char>)
    ensures
        forall|i: int|
            0 <= i < 5 ==> name.is_prefix_of(#[trigger] builder.built(name).child_names()[i]),
        forall|i: int, j: int|
            0 <= i < j < 5 ==> #[trigger] builder.built(name).child_names()[i]
                != #[trigger] builder.built(name).child_names()[j],
{
    reveal_strlit("hours");
    reveal_strlit("spacer1");
    reveal_strlit("minutes");
    reveal_strlit("spacer2");
    reveal_strlit("seconds");
    let names = builder.built(name).child_names();
    let at = name.len() as int;
    assert(names[0].len() == at + 5);
    assert(names[1][at] == 's' && names[1][at + 1] == 'p' && names[1][at + 6] == '1');
    assert(names[2][at] == 'm');
    assert(names[3][at] == 's' && names[3][at + 1] == 'p' && names[3][at + 6] == '2');
    assert(names[4][at] == 's' && names[4][at + 1] == 'e');
}

/// Draws one child and adds it to `failures` where the backend refused it.
fn draw_child<B: Backend>(
    child: &mut TextBox,
    ctx: &mut DrawCtx<B>,
    failures: &mut Vec<DrawFailure>,
)
    ensures
        final(child)@ == old(child)@,
        final(ctx).calls().len() == old(ctx).calls().len() + 1,
        final(ctx).calls().drop_last() == old(ctx).calls(),
        final(ctx).calls().last().request == old(child)@.paint_request(),
        failure_views(final(failures)@) == match final(ctx).calls().last().error {
            Some(message) => failure_views(old(failures)@).push(
                FailedDraw { widget: old(child)@.name, message },
            ),
            None => failure_views(old(failures)@),
        },
{
    match child.draw(ctx) {
        Ok(()) => {},
        Err(error) => {
            let widget = child.name().to_owned();
            failures.push(DrawFailure { widget, error });
            assert(failure_views(failures@) =~= failure_views(old(failures)@).push(
                FailedDraw { widget: child@.name, message: error.message@ },
            ));
        },
    }
    assert(ctx.calls().drop_last() =~= old(ctx).calls());
}

/// One more call adds at most its own failure to the failures so far.
proof fn lemma_failures_among_grows(
    names: Seq<Seq<char>>,
    start: Seq<PaintCall>,
    now: Seq<PaintCall>,
    count: int,
)
    requires
        0 <= count,
        start.len() + count + 1 == now.len(),
        start.is_prefix_of(now),
    ensures
        failures_among(names, now.skip(start.len() as int), count + 1) == match now.last().error {
            Some(message) => failures_among(
                names,
                now.drop_last().skip(start.len() as int),
                count,
            ).push(FailedDraw { widget: names[count], message }),
            None => failures_among(names, now.drop_last().skip(start.len() as int), count),
        },
{
    let from = start.len() as int;
    lemma_failures_among_prefix(names, now.drop_last().skip(from), now.skip(from), count);
}

/// The failures among the first calls do not depend on those that follow.
proof fn lemma_failures_among_prefix(
    names: Seq<Seq<char>>,
    short: Seq<PaintCall>,
    long: Seq<PaintCall>,
    count: int,
)
    requires
        0 <= count <= short.len() <= long.len(),
        forall|i: int| 0 <= i < count ==> short[i] == long[i],
    ensures
        failures_among(names, short, count) == failures_among(names, long, count),
    decreases count,
{
    if count > 0 {
        lemma_failures_among_prefix(names, short, long, count - 1);
    }
}

/// The settings from which clocks are built. Every field has a default.
#[derive(Clone, Copy, Debug)]
pub struct ClockBuilder {
    /// The height the clock would like; all sizes of its children follow from
    /// it. `None` stands for no preference.
    pub desired_height: Option<u32>,
    /// How the clock wants to lie in its parent, left to right.
    pub h_align: Align,
    /// How the clock wants to lie in its parent, top to bottom.
    pub v_align: Align,
    /// The colour of the digits.
    pub number_fg: Color,
    /// The colour of what the spacers show.
    pub spacer_fg: Color,
    /// The background of all five children.
    pub bg: Color,
}

impl ClockBuilder {
    /// The settings of a builder that was told nothing: no preference for a
    /// height, and the default alignments and colours.
    pub open spec fn unset() -> ClockBuilder {
        ClockBuilder {
            desired_height: None,
            h_align: Align::Start,
            v_align: Align::Start,
            number_fg: Color { red: 0, green: 0, blue: 0, alpha: 0 },
            spacer_fg: Color { red: 0, green: 0, blue: 0, alpha: 0 },
            bg: Color { red: 0, green: 0, blue: 0, alpha: 0 },
        }
    }

    /// The height that a clock built from these settings would like.
    pub open spec fn height(self) -> u32 {
        match self.desired_height {
            Some(height) => height,
            None => FILL,
        }
    }

    /// A box for two digits: as wide as the clock is tall, whatever it shows,
    /// and as tall as the clock. It starts out showing two zeros.
    pub open spec fn digits_leaf(self, name: Seq<char>) -> TextBoxView {
        TextBoxView {
            name,
            text: two_digits(0),
            fg: self.number_fg,
            bg: self.bg,
            text_height: self.height(),
            fixed_width: Some(self.height()),
            h_margins: 0,
            h_align: Align::Start,
            v_align: Align::Start,
            area: Rect { origin: Point { x: 0, y: 0 }, width: 0, height: 0 },
        }
    }

    /// A spacer: no text, two thirds of the clock's height, a fifth of it as
    /// margin on either side, and set a little above the middle.
    pub open spec fn spacer_leaf(self, name: Seq<char>) -> TextBoxView {
        TextBoxView {
            name,
            text: Seq::empty(),
            fg: self.spacer_fg,
            bg: self.bg,
            text_height: (2 * self.height() / 3) as u32,
            fixed_width: None,
            h_margins: (self.height() / 5) as u32,
            h_align: Align::Start,
            v_align: Align::CenterAt(SPACER_ANCHOR),
            area: Rect { origin: Point { x: 0, y: 0 }, width: 0, height: 0 },
        }
    }

    /// The clock that these settings describe, under the name `name`, before
    /// it is given an area. Each child is named after the clock and its part.
    pub open spec fn built(self, name: Seq<char>) -> ClockView {
        ClockView {
            name,
            desired_height: self.height(),
            area: Rect { origin: Point { x: 0, y: 0 }, width: 0, height: 0 },
            h_align: self.h_align,
            v_align: self.v_align,
            hours: self.digits_leaf(name + "hours"@),
            spacer1: self.spacer_leaf(name + "spacer1"@),
            minutes: self.digits_leaf(name + "minutes"@),
            spacer2: self.spacer_leaf(name + "spacer2"@),
            seconds: self.digits_leaf(name + "seconds"@),
        }
    }

    pub fn new() -> (b: ClockBuilder)
        ensures
            b == ClockBuilder::unset(),
    {
        ClockBuilder {
            desired_height: None,
            h_align: Align::default(),
            v_align: Align::default(),
            number_fg: Color::default(),
            spacer_fg: Color::default(),
            bg: Color::default(),
        }
    }

    pub fn desired_height(self, height: u32) -> (b: ClockBuilder)
        ensures
            b == (ClockBuilder { desired_height: Some(height), ..self }),
    {
        ClockBuilder { desired_height: Some(height), ..self }
    }

    pub fn v_align(self, align: Align) -> (b: ClockBuilder)
        ensures
            b == (ClockBuilder { v_align: align, ..self }),
    {
        ClockBuilder { v_align: align, ..self }
    }

    pub fn h_align(self, align: Align) -> (b: ClockBuilder)
        ensures
            b == (ClockBuilder { h_align: align, ..self }),
    {
        ClockBuilder { h_align: align, ..self }
    }

    pub fn number_fg(self, color: Color) -> (b: ClockBuilder)
        ensures
            b == (ClockBuilder { number_fg: color, ..self }),
    {
        ClockBuilder { number_fg: color, ..self }
    }

    pub fn spacer_fg(self, color: Color) -> (b: ClockBuilder)
        ensures
            b == (ClockBuilder { spacer_fg: color, ..self }),
    {
        ClockBuilder { spacer_fg: color, ..self }
    }

    pub fn bg(self, color: Color) -> (b: ClockBuilder)
        ensures
            b == (ClockBuilder { bg: color, ..self }),
    {
        ClockBuilder { bg: color, ..self }
    }

    /// Builds a clock with these settings; the builder can be used again.
    pub fn build(&self, name: &str) -> (clock: Clock)
        ensures
            clock@ == self.built(name@),
    {
        let desired_height: u32 = match self.desired_height {
            Some(height) => height,
            None => FILL,
        };
        let spacer_height: u32 = (desired_height as u64 * 2 / 3) as u32;
        proof {
            reveal_strlit("00");
            reveal_strlit("");
            assert("00"@ =~= two_digits(0));
            assert(""@ =~= Seq::<char>::empty());
        }
        let time_builder = TextBox::builder().text("00").fg(self.number_fg).bg(
            self.bg,
        ).desired_text_height(desired_height).desired_width(desired_height);
        let spacer_builder = TextBox::builder().text("").fg(self.spacer_fg).bg(
            self.bg,
        ).desired_text_height(spacer_height).h_margins(desired_height / 5).v_align(
            Align::CenterAt(SPACER_ANCHOR),
        );
        let hours = time_builder.build(name.to_owned().concat("hours").as_str());
        let minutes = time_builder.build(name.to_owned().concat("minutes").as_str());
        let seconds = time_builder.build(name.to_owned().concat("seconds").as_str());
        let spacer1 = spacer_builder.build(name.to_owned().concat("spacer1").as_str());
        let spacer2 = spacer_builder.build(name.to_owned().concat("spacer2").as_str());
        Clock {
            name: name.to_owned(),
            desired_height,
            area: Rect::default(),
            h_align: self.h_align,
            v_align: self.v_align,
            hours,
            spacer1,
            minutes,
            spacer2,
            seconds,
        }
    }
}

impl Default for ClockBuilder {
    /// A builder with nothing set.
    fn default() -> (b: ClockBuilder)
        ensures
            b == ClockBuilder::unset(),
    {
        ClockBuilder::new()
    }
}

} // verus!
