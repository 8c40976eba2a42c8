use clock_widget::geometry::{
    coord_from, extent_from, offset_within, Align, Point, Rect, CONTENT_LIMIT, HALF, WHOLE,
};
use clock_widget::text_box::TextBox;
use clock_widget::widget::{center_widgets, Widget, FILL};

fn fixed(name: &str, width: u32, height: u32) -> TextBox {
    TextBox::builder().desired_width(width).desired_text_height(height).build(name)
}

fn fixed_aligned(name: &str, width: u32, height: u32, h: Align, v: Align) -> TextBox {
    TextBox::builder()
        .desired_width(width)
        .desired_text_height(height)
        .h_align(h)
        .v_align(v)
        .build(name)
}

#[test]
fn row_starts_flush_left_and_packs_contiguously() {
    let mut a = fixed("a", 30, 10);
    let mut b = fixed("b", 21, 10);
    let mut c = fixed("c", 7, 10);
    let area = Rect::new(5, 8, 100, 10);
    center_widgets(&mut [&mut a, &mut b, &mut c], area);
    assert_eq!(a.area(), Rect::new(5, 8, 30, 10));
    assert_eq!(b.area(), Rect::new(35, 8, 21, 10));
    assert_eq!(c.area(), Rect::new(56, 8, 7, 10));
}

#[test]
fn row_ends_flush_right() {
    let mut a = fixed_aligned("a", 30, 10, Align::End, Align::Start);
    let mut b = fixed("b", 21, 10);
    let area = Rect::new(0, 0, 100, 10);
    center_widgets(&mut [&mut a, &mut b], area);
    assert_eq!(a.area(), Rect::new(49, 0, 30, 10));
    assert_eq!(b.area(), Rect::new(79, 0, 21, 10));
}

#[test]
fn centred_row_has_even_margins_up_to_rounding() {
    let mut a = fixed_aligned("a", 30, 10, Align::CenterAt(HALF), Align::Start);
    let mut b = fixed("b", 21, 10);
    let area = Rect::new(10, 0, 100, 10);
    center_widgets(&mut [&mut a, &mut b], area);
    // 49 columns are spare: 24 go to the left, 25 to the right.
    assert_eq!(a.area(), Rect::new(34, 0, 30, 10));
    assert_eq!(b.area(), Rect::new(64, 0, 21, 10));
    let left_gap = a.area().origin.x - 10;
    let right_gap = 110 - (b.area().origin.x + b.area().width as i32);
    assert_eq!(left_gap, 24);
    assert_eq!(right_gap, 25);
}

#[test]
fn centred_row_with_even_spare_room_is_exactly_centred() {
    let mut a = fixed_aligned("a", 40, 10, Align::CenterAt(HALF), Align::Start);
    let area = Rect::new(0, 0, 100, 10);
    center_widgets(&mut [&mut a], area);
    assert_eq!(a.area(), Rect::new(30, 0, 40, 10));
}

#[test]
fn biased_centre_puts_the_middle_of_the_row_on_the_anchor() {
    // The anchor is at a quarter of 200 columns, column 50; the row is 40 wide.
    let mut a = fixed_aligned("a", 40, 10, Align::CenterAt(250), Align::Start);
    let area = Rect::new(0, 0, 200, 10);
    center_widgets(&mut [&mut a], area);
    assert_eq!(a.area(), Rect::new(30, 0, 40, 10));
}

#[test]
fn centre_at_zero_reaches_past_the_left_edge() {
    let mut a = fixed_aligned("a", 50, 10, Align::CenterAt(0), Align::Start);
    let area = Rect::new(0, 0, 100, 10);
    center_widgets(&mut [&mut a], area);
    assert_eq!(a.area(), Rect::new(-25, 0, 50, 10));
}

#[test]
fn only_the_first_widget_places_the_row() {
    let mut a = fixed_aligned("a", 10, 10, Align::Start, Align::Start);
    let mut b = fixed_aligned("b", 10, 10, Align::End, Align::Start);
    let area = Rect::new(0, 0, 100, 10);
    center_widgets(&mut [&mut a, &mut b], area);
    assert_eq!(a.area().origin.x, 0);
    assert_eq!(b.area().origin.x, 10);
}

#[test]
fn each_widget_is_placed_vertically_on_its_own() {
    let mut top = fixed_aligned("top", 10, 20, Align::Start, Align::Start);
    let mut bottom = fixed_aligned("bottom", 10, 30, Align::Start, Align::End);
    let mut middle = fixed_aligned("middle", 10, 40, Align::Start, Align::CenterAt(HALF));
    let mut high = fixed_aligned("high", 10, 66, Align::Start, Align::CenterAt(450));
    let area = Rect::new(0, 100, 200, 100);
    center_widgets(&mut [&mut top, &mut bottom, &mut middle, &mut high], area);
    assert_eq!(top.area(), Rect::new(0, 100, 10, 20));
    assert_eq!(bottom.area(), Rect::new(10, 170, 10, 30));
    assert_eq!(middle.area(), Rect::new(20, 130, 10, 40));
    assert_eq!(high.area(), Rect::new(30, 112, 10, 66));
}

#[test]
fn widget_keeps_its_own_height_even_when_taller_than_the_parent() {
    let mut tall = fixed_aligned("tall", 10, 300, Align::Start, Align::CenterAt(HALF));
    let area = Rect::new(0, 0, 50, 100);
    center_widgets(&mut [&mut tall], area);
    assert_eq!(tall.area(), Rect::new(0, -100, 10, 300));
}

#[test]
fn a_row_wider_than_the_parent_overflows() {
    let mut a = fixed("a", 80, 10);
    let mut b = fixed("b", 80, 10);
    let area = Rect::new(0, 0, 100, 10);
    center_widgets(&mut [&mut a, &mut b], area);
    assert_eq!(a.area(), Rect::new(0, 0, 80, 10));
    assert_eq!(b.area(), Rect::new(80, 0, 80, 10));

    let mut c = fixed_aligned("c", 80, 10, Align::End, Align::Start);
    let mut d = fixed("d", 80, 10);
    center_widgets(&mut [&mut c, &mut d], area);
    assert_eq!(c.area(), Rect::new(-60, 0, 80, 10));
    assert_eq!(d.area(), Rect::new(20, 0, 80, 10));

    let mut e = fixed_aligned("e", 80, 10, Align::CenterAt(HALF), Align::Start);
    let mut f = fixed("f", 81, 10);
    center_widgets(&mut [&mut e, &mut f], area);
    // 61 columns are missing: the quotient is rounded down, to -31.
    assert_eq!(e.area(), Rect::new(-31, 0, 80, 10));
    assert_eq!(f.area(), Rect::new(49, 0, 81, 10));
}

#[test]
fn zero_sized_parents_are_laid_out_without_error() {
    let mut a = TextBox::builder().text("ab").desired_text_height(10).build("a");
    let mut b = fixed("b", 5, 10);
    let area = Rect::new(3, 4, 0, 0);
    center_widgets(&mut [&mut a, &mut b], area);
    // Text in a row of no height is not wide; a fixed width stays.
    assert_eq!(a.area(), Rect::new(3, 4, 0, 10));
    assert_eq!(b.area(), Rect::new(3, 4, 5, 10));
}

#[test]
fn an_empty_row_is_left_alone() {
    let mut none: [&mut TextBox; 0] = [];
    center_widgets(&mut none, Rect::new(0, 0, 10, 10));
}

#[test]
fn layout_twice_gives_the_same_rectangles() {
    let mut a = fixed_aligned("a", 30, 10, Align::CenterAt(HALF), Align::End);
    let mut b = fixed("b", 21, 7);
    let area = Rect::new(-4, 9, 77, 13);
    center_widgets(&mut [&mut a, &mut b], area);
    let first = (a.area(), b.area());
    center_widgets(&mut [&mut a, &mut b], area);
    assert_eq!((a.area(), b.area()), first);
}

#[test]
fn layout_keeps_names_and_wishes() {
    let mut a = fixed_aligned("a", 30, 10, Align::End, Align::CenterAt(7));
    center_widgets(&mut [&mut a], Rect::new(0, 0, 100, 100));
    assert_eq!(a.name(), "a");
    assert_eq!(a.h_align(), Align::End);
    assert_eq!(a.v_align(), Align::CenterAt(7));
    assert_eq!(a.desired_height(), 10);
    assert_eq!(a.desired_width(100), 30);
}

#[test]
fn coordinates_stop_at_the_ends_of_the_grid() {
    let mut a = fixed("a", 10, 10);
    let mut b = fixed("b", 10, 10);
    let area = Rect::new(i32::MAX - 5, i32::MAX, 100, 10);
    center_widgets(&mut [&mut a, &mut b], area);
    assert_eq!(a.area(), Rect::new(i32::MAX - 5, i32::MAX, 10, 10));
    assert_eq!(b.area(), Rect::new(i32::MAX, i32::MAX, 10, 10));

    let mut c = fixed_aligned("c", u32::MAX, FILL, Align::End, Align::End);
    let mut d = fixed("d", u32::MAX, 10);
    center_widgets(&mut [&mut c, &mut d], Rect::new(i32::MIN, i32::MIN, 0, 0));
    assert_eq!(c.area(), Rect::new(i32::MIN, i32::MIN, u32::MAX, FILL));
    assert_eq!(d.area(), Rect::new(i32::MIN, i32::MIN, u32::MAX, 10));
}

#[test]
fn defaults_of_the_geometry_types() {
    assert_eq!(Point::default(), Point::new(0, 0));
    assert_eq!(Rect::default(), Rect::new(0, 0, 0, 0));
    assert_eq!(Align::default(), Align::Start);
    assert_eq!(Rect::new(1, 2, 3, 4).origin, Point { x: 1, y: 2 });
    assert_eq!(FILL, u32::MAX / 2);
}

#[test]
fn offsets_by_alignment() {
    assert_eq!(offset_within(Align::Start, 100, 30), 0);
    assert_eq!(offset_within(Align::Start, 0, 30), 0);
    assert_eq!(offset_within(Align::End, 100, 30), 70);
    assert_eq!(offset_within(Align::End, 100, 130), -30);
    assert_eq!(offset_within(Align::CenterAt(HALF), 100, 30), 35);
    assert_eq!(offset_within(Align::CenterAt(HALF), 100, 31), 34);
    assert_eq!(offset_within(Align::CenterAt(HALF), 100, 131), -16);
    assert_eq!(offset_within(Align::CenterAt(450), 100, 66), 12);
    assert_eq!(offset_within(Align::CenterAt(0), 100, 66), -33);
    assert_eq!(offset_within(Align::CenterAt(0), 100, 67), -34);
    assert_eq!(offset_within(Align::CenterAt(WHOLE), 100, 66), 67);
    assert_eq!(offset_within(Align::CenterAt(333), 10, 0), 3);
    assert_eq!(offset_within(Align::CenterAt(HALF), 0, 0), 0);
}

#[test]
fn offsets_at_the_limits() {
    assert_eq!(offset_within(Align::CenterAt(u16::MAX), u32::MAX, 0), 281470681677);
    assert_eq!(offset_within(Align::End, 0, CONTENT_LIMIT), -(CONTENT_LIMIT as i128));
    assert_eq!(
        offset_within(Align::CenterAt(0), u32::MAX, CONTENT_LIMIT),
        -(CONTENT_LIMIT as i128) / 2
    );
}

#[test]
fn coordinates_and_extents_are_clamped() {
    assert_eq!(coord_from(0), 0);
    assert_eq!(coord_from(-7), -7);
    assert_eq!(coord_from(i32::MAX as i128), i32::MAX);
    assert_eq!(coord_from(i32::MAX as i128 + 1), i32::MAX);
    assert_eq!(coord_from(i32::MIN as i128), i32::MIN);
    assert_eq!(coord_from(i32::MIN as i128 - 1), i32::MIN);
    assert_eq!(coord_from(i128::MAX), i32::MAX);
    assert_eq!(coord_from(i128::MIN), i32::MIN);
    assert_eq!(extent_from(0), 0);
    assert_eq!(extent_from(u32::MAX as u128), u32::MAX);
    assert_eq!(extent_from(u32::MAX as u128 + 1), u32::MAX);
    assert_eq!(extent_from(u128::MAX), u32::MAX);
}
