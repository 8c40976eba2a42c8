//! The widget protocol and the row layout engine.
//!
//! A widget reports how large it would like to be, is told where it lies by
//! `resize`, and paints itself through a draw context. [`center_widgets`] lays
//! a sequence of widgets out side by side inside a parent rectangle.

use crate::draw::{Backend, DrawCtx, WidgetError};
use crate::geometry::{
    align_offset, clamp_coord, coord_from, lemma_offset_at_half, offset_within, Align, Point,
    Rect, CONTENT_LIMIT, HALF, OFFSET_LIMIT,
};
use vstd::prelude::*;

verus! {

/// The desired height of a widget that has no preference and takes the room
/// it is given.
pub const FILL: u32 = 0x7fff_ffff;

/// Anything that takes part in layout and drawing, leaf or composite.
pub trait Widget: Sized {
    /// The diagnostic label; it need not be unique.
    spec fn spec_name(&self) -> Seq<char>;

    /// The rectangle that the last `resize` assigned.
    spec fn spec_area(&self) -> Rect;

    spec fn spec_h_align(&self) -> Align;

    spec fn spec_v_align(&self) -> Align;

    /// The height that the widget would like, whatever its width.
    spec fn spec_desired_height(&self) -> u32;

    /// The width that the widget would like when it is `height` tall.
    spec fn spec_desired_width(&self, height: u32) -> u32;

    /// The widget as `resize` leaves it when it is given `area`.
    spec fn resized(&self, area: Rect) -> Self;

    fn name(&self) -> (name: &str)
        ensures
            name@ == self.spec_name(),
    ;

    fn area(&self) -> (area: Rect)
        ensures
            area == self.spec_area(),
    ;

    fn h_align(&self) -> (align: Align)
        ensures
            align == self.spec_h_align(),
    ;

    fn v_align(&self) -> (align: Align)
        ensures
            align == self.spec_v_align(),
    ;

    fn desired_height(&self) -> (height: u32)
        ensures
            height == self.spec_desired_height(),
    ;

    fn desired_width(&self, height: u32) -> (width: u32)
        ensures
            width == self.spec_desired_width(height),
    ;

    /// Assigns the widget its rectangle; a composite lays its children out
    /// inside it. What the widget would like to be is not changed by where it
    /// is put.
    fn resize(&mut self, area: Rect)
        ensures
            *final(self) == old(self).resized(area),
            final(self).spec_area() == area,
            final(self).spec_name() == old(self).spec_name(),
            final(self).spec_h_align() == old(self).spec_h_align(),
            final(self).spec_v_align() == old(self).spec_v_align(),
            final(self).spec_desired_height() == old(self).spec_desired_height(),
            forall|height: u32|
                final(self).spec_desired_width(height) == old(self).spec_desired_width(height),
    ;

    /// Paints the widget at its area. Requests already made through `ctx` stay
    /// as they were.
    fn draw<B: Backend>(&mut self, ctx: &mut DrawCtx<B>) -> (outcome: Result<(), WidgetError>)
        ensures
            final(self).spec_area() == old(self).spec_area(),
            old(ctx).calls().is_prefix_of(final(ctx).calls()),
    ;

    /// Reacts to a pointer button pressed at `point`.
    fn click(&mut self, button: u32, point: Point) -> (outcome: Result<(), WidgetError>)
        ensures
            final(self).spec_area() == old(self).spec_area(),
            final(self).spec_name() == old(self).spec_name(),
            final(self).spec_h_align() == old(self).spec_h_align(),
            final(self).spec_v_align() == old(self).spec_v_align(),
            final(self).spec_desired_height() == old(self).spec_desired_height(),
            forall|height: u32|
                final(self).spec_desired_width(height) == old(self).spec_desired_width(height),
    ;
}

/// `after` reports the same name, alignment and desired size as `before`.
pub open spec fn same_hints<W: Widget>(before: &W, after: &W) -> bool {
    &&& after.spec_name() == before.spec_name()
    &&& after.spec_h_align() == before.spec_h_align()
    &&& after.spec_v_align() == before.spec_v_align()
    &&& after.spec_desired_height() == before.spec_desired_height()
    &&& forall|height: u32|
        after.spec_desired_width(height) == before.spec_desired_width(height)
}

/// What the row layout reads of one widget: the size it asks for at the
/// parent's height, and how it wants to sit vertically.
pub struct Slot {
    pub width: u32,
    pub height: u32,
    pub v_align: Align,
}

/// The slot of `widget` in a parent that is `height` tall.
pub open spec fn slot_of<W: Widget>(widget: &W, height: u32) -> Slot {
    Slot {
        width: widget.spec_desired_width(height),
        height: widget.spec_desired_height(),
        v_align: widget.spec_v_align(),
    }
}

/// The widths of the first `count` slots, added up.
pub open spec fn widths_before(slots: Seq<Slot>, count: int) -> int
    decreases count,
{
    if count <= 0 {
        0
    } else {
        widths_before(slots, count - 1) + slots[count - 1].width
    }
}

/// The width of the whole row.
pub open spec fn total_width(slots: Seq<Slot>) -> int {
    widths_before(slots, slots.len() as int)
}

/// Where the row begins, measured from the parent's left edge.
pub open spec fn row_offset(area: Rect, h_align: Align, slots: Seq<Slot>) -> int {
    align_offset(h_align, area.width as int, total_width(slots))
}

/// The column at which slot `i` begins, before it is brought into the
/// coordinate range.
pub open spec fn slot_left(area: Rect, h_align: Align, slots: Seq<Slot>, i: int) -> int {
    area.origin.x + row_offset(area, h_align, slots) + widths_before(slots, i)
}

/// The row at which slot `i` begins, before it is brought into the coordinate
/// range. It depends on no other slot.
pub open spec fn slot_top(area: Rect, slots: Seq<Slot>, i: int) -> int {
    area.origin.y + align_offset(slots[i].v_align, area.height as int, slots[i].height as int)
}

/// The rectangle of slot `i`: the row is placed as a whole by `h_align`, its
/// slots follow one another without gaps, and each keeps the size it asked for.
pub open spec fn slot_rect(area: Rect, h_align: Align, slots: Seq<Slot>, i: int) -> Rect {
    Rect {
        origin: Point {
            x: clamp_coord(slot_left(area, h_align, slots, i)),
            y: clamp_coord(slot_top(area, slots, i)),
        },
        width: slots[i].width,
        height: slots[i].height,
    }
}

/// The slots of a row of widgets in a parent that is `height` tall.
pub open spec fn slots_of<W: Widget>(widgets: Seq<W>, height: u32) -> Seq<Slot> {
    Seq::new(widgets.len(), |i: int| slot_of(&widgets[i], height))
}

/// The alignment that places the row: that of its first widget.
pub open spec fn row_align<W: Widget>(widgets: Seq<W>) -> Align {
    if widgets.len() > 0 {
        widgets[0].spec_h_align()
    } else {
        Align::Start
    }
}

/// `after` is the row `before` laid out inside `area`: every widget was
/// resized to the rectangle of its slot, lies there, and asks for what it asked
/// before.
pub open spec fn laid_out<W: Widget>(before: Seq<W>, after: Seq<W>, area: Rect) -> bool {
    &&& after.len() == before.len()
    &&& forall|i: int|
        0 <= i < before.len() ==> #[trigger] after[i] == before[i].resized(
            slot_rect(area, row_align(before), slots_of(before, area.height), i),
        )
    &&& forall|i: int|
        0 <= i < before.len() ==> (#[trigger] after[i]).spec_area() == slot_rect(
            area,
            row_align(before),
            slots_of(before, area.height),
            i,
        )
    &&& forall|i: int| 0 <= i < before.len() ==> same_hints(&before[i], &#[trigger] after[i])
}

/// The widgets that a sequence of mutable references points at.
pub open spec fn targets<W>(refs: Seq<&mut W>) -> Seq<W> {
    Seq::new(refs.len(), |i: int| *refs[i])
}

/// The widths of the slots seen so far never exceed what that many widest
/// slots would take.
pub proof fn lemma_widths_before_bounds(slots: Seq<Slot>, count: int)
    requires
        0 <= count <= slots.len(),
    ensures
        0 <= widths_before(slots, count) <= count * u32::MAX,
    decreases count,
{
    if count > 0 {
        lemma_widths_before_bounds(slots, count - 1);
    }
}

/// Lays `widgets` out side by side inside `area`, in the order given.
///
/// Each widget is asked for its width at the height of `area` and for its own
/// height, and keeps both. The alignment of the first widget places the row as
/// a whole; every widget is placed vertically by its own alignment against the
/// full height of `area`. A row wider than `area` reaches past it: nothing is
/// clipped or shrunk. An empty row is left alone.
///
/// The slice holds the same references afterwards; what they point at has been
/// resized.
pub fn center_widgets<W: Widget>(widgets: &mut [&mut W], area: Rect)
    ensures
        laid_out(targets(old(widgets)@), targets(final(widgets)@), area),
        forall|i: int|
            0 <= i < old(widgets)@.len() ==> *final(#[trigger] final(widgets)@[i])
                == *final(old(widgets)@[i]),
{
    let n: usize = widgets.len();
    if n == 0 {
        return ;
    }
    let ghost row = targets(old(widgets)@);
    let ghost slots = slots_of(row, area.height);
    let mut total: u128 = 0;
    let mut i: usize = 0;
    while i < n
        invariant
            i <= n,
            n == widgets@.len(),
            widgets@ == old(widgets)@,
            row == targets(old(widgets)@),
            slots == slots_of(row, area.height),
            total == widths_before(slots, i as int),
            total <= i * u32::MAX,
        decreases n - i,
    {
        let width: u32 = widgets[i].desired_width(area.height);
        assert(width == slots[i as int].width);
        total = total + width as u128;
        i = i + 1;
    }
    let h_align = widgets[0].h_align();
    assert(h_align == row_align(row));
    let offset: i128 = offset_within(h_align, area.width, total);
    let mut before: u128 = 0;
    i = 0;
    while i < n
        invariant
            i <= n,
            n == widgets@.len(),
            n == row.len(),
            row == targets(old(widgets)@),
            slots == slots_of(row, area.height),
            h_align == row_align(row),
            offset == row_offset(area, h_align, slots),
            -CONTENT_LIMIT <= offset <= OFFSET_LIMIT,
            before == widths_before(slots, i as int),
            before <= i * u32::MAX,
            forall|j: int|
                0 <= j < n ==> *final(#[trigger] widgets@[j]) == *final(old(widgets)@[j]),
            forall|j: int| 0 <= j < n ==> same_hints(&row[j], &*#[trigger] widgets@[j]),
            forall|j: int| i <= j < n ==> *#[trigger] widgets@[j] == row[j],
            forall|j: int|
                0 <= j < i ==> *#[trigger] widgets@[j] == row[j].resized(
                    slot_rect(area, h_align, slots, j),
                ),
            forall|j: int|
                0 <= j < i ==> (*#[trigger] widgets@[j]).spec_area() == slot_rect(
                    area,
                    h_align,
                    slots,
                    j,
                ),
        decreases n - i,
    {
        let width: u32 = widgets[i].desired_width(area.height);
        let height: u32 = widgets[i].desired_height();
        let v_align = widgets[i].v_align();
        assert(slots[i as int] == (Slot { width, height, v_align }));
        let down: i128 = offset_within(v_align, area.height, height as u128);
        let x: i32 = coord_from(area.origin.x as i128 + offset + before as i128);
        let y: i32 = coord_from(area.origin.y as i128 + down);
        widgets[i].resize(Rect { origin: Point { x, y }, width, height });
        before = before + width as u128;
        i = i + 1;
    }
    assert forall|j: int| 0 <= j < n implies (#[trigger] targets(widgets@)[j]).spec_area()
        == slot_rect(area, row_align(row), slots_of(row, area.height), j) by {
        assert((*widgets@[j]).spec_area() == slot_rect(area, h_align, slots, j));
    }
    assert forall|j: int| 0 <= j < n implies #[trigger] targets(widgets@)[j] == row[j].resized(
        slot_rect(area, row_align(row), slots_of(row, area.height), j),
    ) by {
        assert(*widgets@[j] == row[j].resized(slot_rect(area, h_align, slots, j)));
    }
    assert forall|j: int| 0 <= j < n implies same_hints(
        &row[j],
        &#[trigger] targets(widgets@)[j],
    ) by {
        assert(same_hints(&row[j], &*widgets@[j]));
    }
}

/// The aligned row lies between the left and right edges of `area`.
pub open spec fn row_fits(area: Rect, h_align: Align, slots: Seq<Slot>) -> bool {
    0 <= row_offset(area, h_align, slots) <= area.width - total_width(slots)
}

/// The widths seen so far only grow along the row.
pub proof fn lemma_widths_before_monotonic(slots: Seq<Slot>, i: int, j: int)
    requires
        0 <= i <= j <= slots.len(),
    ensures
        0 <= widths_before(slots, i) <= widths_before(slots, j),
    decreases j - i,
{
    lemma_widths_before_bounds(slots, i);
    if i < j {
        lemma_widths_before_monotonic(slots, i, j - 1);
    }
}

/// A row no wider than its parent fits when it is flush with either edge or
/// centred on the middle.
pub proof fn lemma_plain_alignments_fit(area: Rect, h_align: Align, slots: Seq<Slot>)
    requires
        total_width(slots) <= area.width,
        h_align == Align::Start || h_align == Align::End || h_align == Align::CenterAt(HALF),
    ensures
        row_fits(area, h_align, slots),
{
    lemma_widths_before_bounds(slots, slots.len() as int);
    lemma_offset_at_half(area.width as int, total_width(slots));
}

/// Containment: where the aligned row lies between the edges of a parent
/// whose right edge is on the grid, every slot lies between them too, each
/// slot begins where the one before it ends, and no two slots share a column.
pub proof fn lemma_row_contained(area: Rect, h_align: Align, slots: Seq<Slot>)
    requires
        area.columns_on_grid(),
        row_fits(area, h_align, slots),
    ensures
        forall|i: int|
            0 <= i < slots.len() ==> (#[trigger] slot_rect(area, h_align, slots, i)).left()
                == slot_left(area, h_align, slots, i),
        forall|i: int|
            0 <= i < slots.len() ==> (#[trigger] slot_rect(
                area,
                h_align,
                slots,
                i,
            )).within_columns_of(area),
        forall|i: int|
            0 <= i < slots.len() - 1 ==> (#[trigger] slot_rect(area, h_align, slots, i)).right()
                == slot_rect(area, h_align, slots, i + 1).left(),
        forall|i: int, j: int|
            0 <= i < j < slots.len() ==> (#[trigger] slot_rect(area, h_align, slots, i)).right()
                <= (#[trigger] slot_rect(area, h_align, slots, j)).left(),
{
    let n = slots.len() as int;
    assert forall|i: int| 0 <= i < n implies {
        &&& area.left() <= #[trigger] slot_left(area, h_align, slots, i)
        &&& slot_left(area, h_align, slots, i) + slots[i].width <= area.right()
    } by {
        lemma_widths_before_monotonic(slots, i, i + 1);
        lemma_widths_before_monotonic(slots, i + 1, n);
    }
    assert forall|i: int, j: int| 0 <= i < j < n implies (#[trigger] slot_rect(
        area,
        h_align,
        slots,
        i,
    )).right() <= (#[trigger] slot_rect(area, h_align, slots, j)).left() by {
        lemma_widths_before_monotonic(slots, i + 1, j);
        assert(area.left() <= slot_left(area, h_align, slots, i));
        assert(area.left() <= slot_left(area, h_align, slots, j));
    }
}

/// A slot no taller than a parent whose bottom edge is on the grid lies
/// between the parent's top and bottom edges when it is flush with either or
/// centred on the middle.
pub proof fn lemma_slot_within_rows(area: Rect, h_align: Align, slots: Seq<Slot>, i: int)
    requires
        area.rows_on_grid(),
        0 <= i < slots.len(),
        slots[i].height <= area.height,
        slots[i].v_align == Align::Start || slots[i].v_align == Align::End || slots[i].v_align
            == Align::CenterAt(HALF),
    ensures
        slot_rect(area, h_align, slots, i).within_rows_of(area),
{
    lemma_offset_at_half(area.height as int, slots[i].height as int);
}

/// Centring: a row centred on the middle of its parent leaves as much room on
/// its left as on its right, or one column less where the room is odd.
pub proof fn lemma_centred_row_is_centred(area: Rect, slots: Seq<Slot>)
    ensures
        ({
            let left_gap = row_offset(area, Align::CenterAt(HALF), slots);
            let right_gap = area.width - total_width(slots) - left_gap;
            0 <= right_gap - left_gap <= 1
        }),
{
    lemma_offset_at_half(area.width as int, total_width(slots));
}

/// Centring, on the rectangles: in a parent whose right edge is on the grid,
/// the gap between the parent's left edge and the first slot and the gap
/// between the last slot and the parent's right edge differ by one column at
/// most.
pub proof fn lemma_centred_row_margins(area: Rect, slots: Seq<Slot>)
    requires
        area.columns_on_grid(),
        slots.len() > 0,
        total_width(slots) <= area.width,
    ensures
        ({
            let first = slot_rect(area, Align::CenterAt(HALF), slots, 0);
            let last = slot_rect(area, Align::CenterAt(HALF), slots, slots.len() - 1);
            let left_gap = first.left() - area.left();
            let right_gap = area.right() - last.right();
            0 <= left_gap <= right_gap <= left_gap + 1
        }),
{
    let h_align = Align::CenterAt(HALF);
    lemma_plain_alignments_fit(area, h_align, slots);
    lemma_row_contained(area, h_align, slots);
    lemma_centred_row_is_centred(area, slots);
    let last = slots.len() - 1;
    assert(slot_rect(area, h_align, slots, 0).left() == slot_left(area, h_align, slots, 0));
    assert(slot_rect(area, h_align, slots, last).left() == slot_left(area, h_align, slots, last));
    assert(widths_before(slots, 0) == 0);
    assert(widths_before(slots, last + 1) == widths_before(slots, last) + slots[last].width);
}

/// Laying a row out again in the same rectangle moves nothing.
pub proof fn lemma_layout_idempotent<W: Widget>(
    before: Seq<W>,
    once: Seq<W>,
    twice: Seq<W>,
    area: Rect,
)
    requires
        laid_out(before, once, area),
        laid_out(once, twice, area),
    ensures
        forall|i: int|
            0 <= i < before.len() ==> (#[trigger] twice[i]).spec_area() == once[i].spec_area(),
{
    assert(slots_of(once, area.height) =~= slots_of(before, area.height)) by {
        assert forall|i: int| 0 <= i < before.len() implies slots_of(once, area.height)[i]
            == slots_of(before, area.height)[i] by {
            assert(same_hints(&before[i], &once[i]));
        }
    }
    if before.len() > 0 {
        assert(same_hints(&before[0], &once[0]));
    }
    assert forall|i: int| 0 <= i < before.len() implies (#[trigger] twice[i]).spec_area()
        == once[i].spec_area() by {
        assert(once[i].spec_area() == slot_rect(
            area,
            row_align(before),
            slots_of(before, area.height),
            i,
        ));
    }
}

} // verus!
