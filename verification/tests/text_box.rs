use clock_widget::draw::{Backend, Color, DrawCtx, WidgetError};
use clock_widget::geometry::{Align, Point, Rect};
use clock_widget::text_box::TextBox;
use clock_widget::widget::{Widget, FILL};

struct Recorder {
    seen: Vec<(Rect, String, Color, Color)>,
    refuse: bool,
}

impl Backend for Recorder {
    fn paint(&mut self, area: Rect, text: &str, fg: Color, bg: Color) -> Result<(), WidgetError> {
        self.seen.push((area, text.to_string(), fg, bg));
        if self.refuse {
            Err(WidgetError::new("no surface"))
        } else {
            Ok(())
        }
    }
}

#[test]
fn text_box_defaults() {
    let b = TextBox::builder().build("plain");
    assert_eq!(b.name(), "plain");
    assert_eq!(b.text(), "");
    assert_eq!(b.fg(), Color::default());
    assert_eq!(b.bg(), Color::new(0, 0, 0, 0));
    assert_eq!(b.h_align(), Align::Start);
    assert_eq!(b.v_align(), Align::Start);
    assert_eq!(b.desired_height(), FILL);
    assert_eq!(b.desired_width(100), 0);
    assert_eq!(b.area(), Rect::new(0, 0, 0, 0));
}

#[test]
fn text_box_is_built_as_configured() {
    let red = Color::new(255, 0, 0, 255);
    let grey = Color::new(9, 9, 9, 128);
    let b = TextBox::builder()
        .text("hello")
        .fg(red)
        .bg(grey)
        .desired_text_height(20)
        .h_margins(3)
        .h_align(Align::End)
        .v_align(Align::CenterAt(450))
        .build("greeter");
    assert_eq!(b.name(), "greeter");
    assert_eq!(b.text(), "hello");
    assert_eq!(b.fg(), red);
    assert_eq!(b.bg(), grey);
    assert_eq!(b.h_align(), Align::End);
    assert_eq!(b.v_align(), Align::CenterAt(450));
    assert_eq!(b.desired_height(), 20);
}

#[test]
fn width_follows_the_text_and_the_height() {
    let b = TextBox::builder().text("hello").desired_text_height(20).h_margins(3).build("b");
    // Five glyphs, each half as wide as it is tall, and a margin on either side.
    assert_eq!(b.desired_width(20), 5 * 10 + 6);
    // A lower row sets smaller glyphs.
    assert_eq!(b.desired_width(9), 5 * 4 + 6);
    // A taller row does not set larger glyphs than were asked for.
    assert_eq!(b.desired_width(1000), 5 * 10 + 6);
    assert_eq!(b.desired_width(0), 6);
}

#[test]
fn width_counts_characters_not_bytes() {
    let b = TextBox::builder().text("h\u{e9}llo").desired_text_height(20).build("b");
    assert_eq!(b.desired_width(20), 50);
}

#[test]
fn fixed_width_ignores_text_and_height() {
    let mut b = TextBox::builder().text("00").desired_text_height(20).desired_width(77).build("b");
    assert_eq!(b.desired_width(20), 77);
    assert_eq!(b.desired_width(0), 77);
    b.set_text("a much longer text");
    assert_eq!(b.desired_width(20), 77);
    let c = TextBox::builder().desired_width(77).h_margins(4).build("c");
    assert_eq!(c.desired_width(20), 85);
}

#[test]
fn desired_width_stops_at_the_largest_extent() {
    let b = TextBox::builder().desired_width(u32::MAX).h_margins(1).build("b");
    assert_eq!(b.desired_width(10), u32::MAX);
    let c = TextBox::builder().desired_width(u32::MAX - 2).h_margins(1).build("c");
    assert_eq!(c.desired_width(10), u32::MAX);
    let d = TextBox::builder().desired_width(u32::MAX - 3).h_margins(1).build("d");
    assert_eq!(d.desired_width(10), u32::MAX - 1);
    let e = TextBox::builder().h_margins(u32::MAX).build("e");
    assert_eq!(e.desired_width(10), u32::MAX);
}

#[test]
fn set_text_changes_only_the_text() {
    let mut b = TextBox::builder().text("old").desired_text_height(10).build("b");
    b.resize(Rect::new(1, 2, 3, 4));
    b.set_text("new");
    assert_eq!(b.text(), "new");
    assert_eq!(b.area(), Rect::new(1, 2, 3, 4));
    assert_eq!(b.name(), "b");
    assert_eq!(b.desired_height(), 10);
}

#[test]
fn resize_records_the_area() {
    let mut b = TextBox::builder().text("x").build("b");
    b.resize(Rect::new(-1, -2, 30, 40));
    assert_eq!(b.area(), Rect::new(-1, -2, 30, 40));
    assert_eq!(b.text(), "x");
    b.resize(Rect::new(0, 0, 0, 0));
    assert_eq!(b.area(), Rect::new(0, 0, 0, 0));
}

#[test]
fn one_builder_builds_many_boxes() {
    let builder = TextBox::builder().text("same").desired_text_height(12);
    let a = builder.build("a");
    let b = builder.build("b");
    assert_eq!(a.name(), "a");
    assert_eq!(b.name(), "b");
    assert_eq!(a.text(), "same");
    assert_eq!(b.text(), "same");
}

#[test]
fn draw_sends_one_request_and_hands_back_the_answer() {
    let fg = Color::new(1, 2, 3, 4);
    let bg = Color::new(5, 6, 7, 8);
    let mut b = TextBox::builder().text("12").fg(fg).bg(bg).build("b");
    b.resize(Rect::new(10, 20, 30, 40));

    let mut ctx = DrawCtx::new(Recorder { seen: Vec::new(), refuse: false });
    assert!(b.draw(&mut ctx).is_ok());
    assert_eq!(ctx.backend().seen, vec![(Rect::new(10, 20, 30, 40), "12".to_string(), fg, bg)]);

    let mut ctx = DrawCtx::new(Recorder { seen: Vec::new(), refuse: true });
    let outcome = b.draw(&mut ctx);
    assert_eq!(outcome.unwrap_err().message, "no surface");
    let backend = ctx.into_backend();
    assert_eq!(backend.seen.len(), 1);
    assert_eq!(b.text(), "12");
    assert_eq!(b.area(), Rect::new(10, 20, 30, 40));
}

#[test]
fn text_box_ignores_clicks() {
    let mut b = TextBox::builder().text("x").build("b");
    b.resize(Rect::new(0, 0, 10, 10));
    assert!(b.click(1, Point::new(5, 5)).is_ok());
    assert!(b.click(3, Point::new(-50, 500)).is_ok());
    assert_eq!(b.text(), "x");
    assert_eq!(b.area(), Rect::new(0, 0, 10, 10));
}

#[test]
fn context_hands_requests_and_answers_through() {
    let fg = Color::new(1, 2, 3, 4);
    let bg = Color::new(5, 6, 7, 8);
    let mut ctx = DrawCtx::new(Recorder { seen: Vec::new(), refuse: false });
    assert!(ctx.paint(Rect::new(1, 2, 3, 4), "a", fg, bg).is_ok());
    assert!(ctx.paint(Rect::new(5, 6, 7, 8), "b", bg, fg).is_ok());
    assert_eq!(
        ctx.backend().seen,
        vec![
            (Rect::new(1, 2, 3, 4), "a".to_string(), fg, bg),
            (Rect::new(5, 6, 7, 8), "b".to_string(), bg, fg),
        ]
    );
    let mut ctx = DrawCtx::new(Recorder { seen: Vec::new(), refuse: true });
    let outcome = ctx.paint(Rect::new(0, 0, 0, 0), "", fg, bg);
    assert_eq!(outcome.unwrap_err().message, "no surface");
    assert_eq!(ctx.into_backend().seen.len(), 1);
}

#[test]
fn widget_error_keeps_its_message() {
    assert_eq!(WidgetError::new("out of memory").message, "out of memory");
    assert_eq!(WidgetError::new("").message, "");
}
