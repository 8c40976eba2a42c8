//! The text leaf: a box that shows one line of text.
//!
//! The leaf does not know the font. It sizes itself as if every glyph were half
//! as wide as it is tall, unless it was given a fixed width, and leaves the
//! painting of the glyphs to the backend.

use crate::draw::{error_of, Backend, Color, DrawCtx, PaintCall, PaintRequest, WidgetError};
use crate::geometry::{clamp_extent, extent_from, Align, Point, Rect};
use crate::widget::{Widget, FILL};
use vstd::prelude::*;
use vstd::string::*;

verus! {

/// What a text box is, as plain values.
pub struct TextBoxView {
    pub name: Seq<char>,
    pub text: Seq<char>,
    pub fg: Color,
    pub bg: Color,
    /// The text height asked for; also the height the box would like.
    pub text_height: u32,
    /// The width of the content where it does not follow the text.
    pub fixed_width: Option<u32>,
    /// Room left free on either side of the content.
    pub h_margins: u32,
    pub h_align: Align,
    pub v_align: Align,
    pub area: Rect,
}

impl TextBoxView {
    /// The height at which glyphs are set in a box that is `height` tall: the
    /// text height asked for, or all of `height` where that is less.
    pub open spec fn glyph_height(self, height: u32) -> int {
        if height < self.text_height {
            height as int
        } else {
            self.text_height as int
        }
    }

    /// The width of the content in a box that is `height` tall.
    pub open spec fn content_width(self, height: u32) -> int {
        match self.fixed_width {
            Some(width) => width as int,
            None => self.text.len() * (self.glyph_height(height) / 2),
        }
    }

    /// The width the box would like when it is `height` tall: its content and
    /// both margins, or the largest extent where that is less.
    pub open spec fn desired_width(self, height: u32) -> u32 {
        clamp_extent(self.content_width(height) + 2 * self.h_margins)
    }

    /// What the box asks the backend to paint.
    pub open spec fn paint_request(self) -> PaintRequest {
        PaintRequest { area: self.area, text: self.text, fg: self.fg, bg: self.bg }
    }

    /// The same box showing `text`.
    pub open spec fn with_text(self, text: Seq<char>) -> TextBoxView {
        TextBoxView { text, ..self }
    }

    /// The same box lying in `area`.
    pub open spec fn with_area(self, area: Rect) -> TextBoxView {
        TextBoxView { area, ..self }
    }
}

/// A leaf widget that shows one line of text.
#[derive(Debug)]
pub struct TextBox {
    name: String,
    text: String,
    fg: Color,
    bg: Color,
    text_height: u32,
    fixed_width: Option<u32>,
    h_margins: u32,
    h_align: Align,
    v_align: Align,
    area: Rect,
}

impl View for TextBox {
    type V = TextBoxView;

    closed spec fn view(&self) -> TextBoxView {
        TextBoxView {
            name: self.name@,
            text: self.text@,
            fg: self.fg,
            bg: self.bg,
            text_height: self.text_height,
            fixed_width: self.fixed_width,
            h_margins: self.h_margins,
            h_align: self.h_align,
            v_align: self.v_align,
            area: self.area,
        }
    }
}

impl TextBox {
    /// A builder with nothing set.
    pub fn builder() -> (b: TextBoxBuilder)
        ensures
            b.is_unset(),
    {
        TextBoxBuilder::new()
    }

    /// Replaces the text shown. Nothing else changes, the area included.
    pub fn set_text(&mut self, text: &str)
        ensures
            final(self)@ == old(self)@.with_text(text@),
    {
        self.text = text.to_owned();
    }

    pub fn text(&self) -> (text: &str)
        ensures
            text@ == self@.text,
    {
        self.text.as_str()
    }

    /// Resizing a box moves it and changes nothing else.
    pub proof fn lemma_resized(&self, area: Rect)
        ensures
            self.resized(area)@ == self@.with_area(area),
    {
    }

    pub fn fg(&self) -> (fg: Color)
        ensures
            fg == self@.fg,
    {
        self.fg
    }

    pub fn bg(&self) -> (bg: Color)
        ensures
            bg == self@.bg,
    {
        self.bg
    }
}

impl Widget for TextBox {
    open spec fn spec_name(&self) -> Seq<char> {
        self@.name
    }

    open spec fn spec_area(&self) -> Rect {
        self@.area
    }

    open spec fn spec_h_align(&self) -> Align {
        self@.h_align
    }

    open spec fn spec_v_align(&self) -> Align {
        self@.v_align
    }

    open spec fn spec_desired_height(&self) -> u32 {
        self@.text_height
    }

    open spec fn spec_desired_width(&self, height: u32) -> u32 {
        self@.desired_width(height)
    }

    closed spec fn resized(&self, area: Rect) -> TextBox {
        TextBox { area, ..*self }
    }

    fn name(&self) -> (name: &str) {
        self.name.as_str()
    }

    fn area(&self) -> (area: Rect) {
        self.area
    }

    fn h_align(&self) -> (align: Align) {
        self.h_align
    }

    fn v_align(&self) -> (align: Align) {
        self.v_align
    }

    fn desired_height(&self) -> (height: u32) {
        self.text_height
    }

    fn desired_width(&self, height: u32) -> (width: u32) {
        let content: u128 = match self.fixed_width {
            Some(width) => width as u128,
            None => {
                let glyph_height: u32 = if height < self.text_height {
                    height
                } else {
                    self.text_height
                };
                let advance: u32 = glyph_height / 2;
                let glyphs: usize = self.text.as_str().unicode_len();
                assert(0 <= (glyphs as int) * (advance as int) <= usize::MAX * u32::MAX)
                    by (nonlinear_arith)
                    requires
                        0 <= glyphs <= usize::MAX,
                        0 <= advance <= u32::MAX,
                ;
                glyphs as u128 * advance as u128
            },
        };
        extent_from(content + 2 * self.h_margins as u128)
    }

    /// Moves the box to `area`; nothing else changes.
    fn resize(&mut self, area: Rect)
        ensures
            final(self)@ == old(self)@.with_area(area),
    {
        self.area = area;
    }

    /// Sends the text, the area and the colours to the backend, once, and
    /// hands its answer back. The box itself does not change.
    fn draw<B: Backend>(&mut self, ctx: &mut DrawCtx<B>) -> (outcome: Result<(), WidgetError>)
        ensures
            final(self)@ == old(self)@,
            final(ctx).calls() == old(ctx).calls().push(
                PaintCall { request: old(self)@.paint_request(), error: error_of(outcome) },
            ),
    {
        ctx.paint(self.area, self.text.as_str(), self.fg, self.bg)
    }

    /// A text box ignores clicks.
    fn click(&mut self, button: u32, point: Point) -> (outcome: Result<(), WidgetError>)
        ensures
            outcome is Ok,
            final(self)@ == old(self)@,
    {
        Ok(())
    }
}

/// The settings from which text boxes are built. Every field has a default;
/// one builder can build any number of boxes.
#[derive(Debug)]
pub struct TextBoxBuilder {
    pub text: String,
    pub fg: Color,
    pub bg: Color,
    pub desired_text_height: Option<u32>,
    pub desired_width: Option<u32>,
    pub h_margins: u32,
    pub h_align: Align,
    pub v_align: Align,
}

impl TextBoxBuilder {
    /// The builder was told nothing: no text, the default colours and
    /// alignments, no margins, no preference for a height, and a width that
    /// follows the text.
    pub open spec fn is_unset(self) -> bool {
        &&& self.text@ == Seq::<char>::empty()
        &&& self.fg == (Color { red: 0, green: 0, blue: 0, alpha: 0 })
        &&& self.bg == (Color { red: 0, green: 0, blue: 0, alpha: 0 })
        &&& self.desired_text_height is None
        &&& self.desired_width is None
        &&& self.h_margins == 0
        &&& self.h_align == Align::Start
        &&& self.v_align == Align::Start
    }

    /// The box that these settings describe, under the name `name`, before it
    /// is given an area.
    pub open spec fn built(self, name: Seq<char>) -> TextBoxView {
        TextBoxView {
            name,
            text: self.text@,
            fg: self.fg,
            bg: self.bg,
            text_height: match self.desired_text_height {
                Some(height) => height,
                None => FILL,
            },
            fixed_width: self.desired_width,
            h_margins: self.h_margins,
            h_align: self.h_align,
            v_align: self.v_align,
            area: Rect { origin: Point { x: 0, y: 0 }, width: 0, height: 0 },
        }
    }

    pub fn new() -> (b: TextBoxBuilder)
        ensures
            b.is_unset(),
    {
        TextBoxBuilder {
            text: String::new(),
            fg: Color::default(),
            bg: Color::default(),
            desired_text_height: None,
            desired_width: None,
            h_margins: 0,
            h_align: Align::default(),
            v_align: Align::default(),
        }
    }

    pub fn text(self, text: &str) -> (b: TextBoxBuilder)
        ensures
            b.text@ == text@,
            b == (TextBoxBuilder { text: b.text, ..self }),
    {
        TextBoxBuilder { text: text.to_owned(), ..self }
    }

    pub fn fg(self, fg: Color) -> (b: TextBoxBuilder)
        ensures
            b == (TextBoxBuilder { fg, ..self }),
    {
        TextBoxBuilder { fg, ..self }
    }

    pub fn bg(self, bg: Color) -> (b: TextBoxBuilder)
        ensures
            b == (TextBoxBuilder { bg, ..self }),
    {
        TextBoxBuilder { bg, ..self }
    }

    pub fn desired_text_height(self, height: u32) -> (b: TextBoxBuilder)
        ensures
            b == (TextBoxBuilder { desired_text_height: Some(height), ..self }),
    {
        TextBoxBuilder { desired_text_height: Some(height), ..self }
    }

    pub fn desired_width(self, width: u32) -> (b: TextBoxBuilder)
        ensures
            b == (TextBoxBuilder { desired_width: Some(width), ..self }),
    {
        TextBoxBuilder { desired_width: Some(width), ..self }
    }

    pub fn h_margins(self, margin: u32) -> (b: TextBoxBuilder)
        ensures
            b == (TextBoxBuilder { h_margins: margin, ..self }),
    {
        TextBoxBuilder { h_margins: margin, ..self }
    }

    pub fn h_align(self, align: Align) -> (b: TextBoxBuilder)
        ensures
            b == (TextBoxBuilder { h_align: align, ..self }),
    {
        TextBoxBuilder { h_align: align, ..self }
    }

    pub fn v_align(self, align: Align) -> (b: TextBoxBuilder)
        ensures
            b == (TextBoxBuilder { v_align: align, ..self }),
    {
        TextBoxBuilder { v_align: align, ..self }
    }

    /// Builds a box with these settings; the builder can be used again.
    pub fn build(&self, name: &str) -> (text_box: TextBox)
        ensures
            text_box@ == self.built(name@),
    {
        TextBox {
            name: name.to_owned(),
            text: self.text.clone(),
            fg: self.fg,
            bg: self.bg,
            text_height: match self.desired_text_height {
                Some(height) => height,
                None => FILL,
            },
            fixed_width: self.desired_width,
            h_margins: self.h_margins,
            h_align: self.h_align,
            v_align: self.v_align,
            area: Rect::default(),
        }
    }
}

} // verus!
