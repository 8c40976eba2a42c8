//! The drawing side of the widget protocol: colours, the rendering backend as
//! widgets see it, and the draw context through which every paint request goes.

use crate::geometry::Rect;
use vstd::prelude::*;

verus! {

/// A colour with straight alpha.
#[derive(Clone, Copy, Debug, PartialEq, Eq, Structural)]
pub struct Color {
    pub red: u8,
    pub green: u8,
    pub blue: u8,
    pub alpha: u8,
}

impl Color {
    pub fn new(red: u8, green: u8, blue: u8, alpha: u8) -> (c: Color)
        ensures
            c == (Color { red, green, blue, alpha }),
    {
        Color { red, green, blue, alpha }
    }
}

impl Default for Color {
    /// Fully transparent black.
    fn default() -> (c: Color)
        ensures
            c == (Color { red: 0, green: 0, blue: 0, alpha: 0 }),
    {
        Color { red: 0, green: 0, blue: 0, alpha: 0 }
    }
}

/// Why a widget could not be drawn, in the words of the backend that refused.
#[derive(Debug)]
pub struct WidgetError {
    pub message: String,
}

impl WidgetError {
    pub fn new(message: &str) -> (e: WidgetError)
        ensures
            e.message@ == message@,
    {
        WidgetError { message: message.to_owned() }
    }
}

/// The renderer behind a draw context. It paints `text` over a background that
/// fills `area`, and may refuse. Nothing is assumed of what it does.
pub trait Backend {
    fn paint(&mut self, area: Rect, text: &str, fg: Color, bg: Color) -> Result<(), WidgetError>;
}

/// What a widget asks the backend to paint.
pub struct PaintRequest {
    pub area: Rect,
    pub text: Seq<char>,
    pub fg: Color,
    pub bg: Color,
}

/// One request that went to the backend and how it ended: `error` holds the
/// backend's message where it refused.
pub struct PaintCall {
    pub request: PaintRequest,
    pub error: Option<Seq<char>>,
}

/// The requests of `calls`, in order.
pub open spec fn requests_of(calls: Seq<PaintCall>) -> Seq<PaintRequest> {
    Seq::new(calls.len(), |i: int| calls[i].request)
}

/// What a backend's answer looks like in the history of calls.
pub open spec fn error_of(outcome: Result<(), WidgetError>) -> Option<Seq<char>> {
    match outcome {
        Ok(_) => None,
        Err(e) => Some(e.message@),
    }
}

/// One child of a composite that could not be drawn: the name of the child
/// and what the backend said.
#[derive(Debug)]
pub struct DrawFailure {
    pub widget: String,
    pub error: WidgetError,
}

/// A draw failure as plain values.
pub struct FailedDraw {
    pub widget: Seq<char>,
    pub message: Seq<char>,
}

impl View for DrawFailure {
    type V = FailedDraw;

    open spec fn view(&self) -> FailedDraw {
        FailedDraw { widget: self.widget@, message: self.error.message@ }
    }
}

/// The failures of a list, as plain values.
pub open spec fn failure_views(failures: Seq<DrawFailure>) -> Seq<FailedDraw> {
    Seq::new(failures.len(), |i: int| failures[i]@)
}

/// The failures among the first `count` of `calls`, oldest first, where call
/// `i` painted the widget called `names[i]`.
pub open spec fn failures_among(
    names: Seq<Seq<char>>,
    calls: Seq<PaintCall>,
    count: int,
) -> Seq<FailedDraw>
    decreases count,
{
    if count <= 0 {
        Seq::empty()
    } else {
        let earlier = failures_among(names, calls, count - 1);
        match calls[count - 1].error {
            Some(message) => earlier.push(FailedDraw { widget: names[count - 1], message }),
            None => earlier,
        }
    }
}

/// The context handed to `draw`: it owns the backend and remembers, as ghost
/// state, every request that was sent through it.
pub struct DrawCtx<B: Backend> {
    backend: B,
    history: Ghost<Seq<PaintCall>>,
}

impl<B: Backend> DrawCtx<B> {
    /// Every call made through this context so far, oldest first.
    pub closed spec fn calls(&self) -> Seq<PaintCall> {
        self.history@
    }

    /// The backend as it is now.
    pub closed spec fn spec_backend(&self) -> B {
        self.backend
    }

    pub fn new(backend: B) -> (ctx: DrawCtx<B>)
        ensures
            ctx.calls() == Seq::<PaintCall>::empty(),
            ctx.spec_backend() == backend,
    {
        DrawCtx { backend, history: Ghost(Seq::empty()) }
    }

    /// Sends one request to the backend and hands its answer back unchanged.
    /// The call is recorded whether or not the backend accepted it.
    pub fn paint(&mut self, area: Rect, text: &str, fg: Color, bg: Color) -> (outcome: Result<
        (),
        WidgetError,
    >)
        ensures
            final(self).calls() == old(self).calls().push(
                PaintCall {
                    request: PaintRequest { area, text: text@, fg, bg },
                    error: error_of(outcome),
                },
            ),
    {
        let outcome = self.backend.paint(area, text, fg, bg);
        proof {
            self.history@ = self.history@.push(
                PaintCall {
                    request: PaintRequest { area, text: text@, fg, bg },
                    error: error_of(outcome),
                },
            );
        }
        outcome
    }

    pub fn backend(&self) -> (b: &B)
        ensures
            *b == self.spec_backend(),
    {
        &self.backend
    }

    pub fn into_backend(self) -> (b: B)
        ensures
            b == self.spec_backend(),
    {
        self.backend
    }
}

} // verus!
