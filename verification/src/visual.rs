//! Visual composition: colors, the renderable capability contract, frames,
//! and the screen adapter.
//!
//! The graphics backend that actually draws pixels is an external
//! collaborator. The types here schedule its work instead of performing it:
//! preparing records, in order, which stimulus resources must be readied
//! for the cycle, and rendering records the ordered draw commands for the
//! cycle. A presentation task interprets those records against the backend.

use vstd::prelude::*;

verus! {

/// A display color with 8-bit channels, either opaque or with alpha.
///
/// Convertible from plain 8-bit triples; conversion to backend-native
/// color representations is the backend's concern.
#[derive(Debug, Clone, Copy, PartialEq, Eq, Structural)]
pub enum Color {
    RGB { r: u8, g: u8, b: u8 },
    RGBA { r: u8, g: u8, b: u8, a: u8 },
}

impl From<(u8, u8, u8)> for Color {
    fn from(t: (u8, u8, u8)) -> (c: Color) {
        Color::RGB { r: t.0, g: t.1, b: t.2 }
    }
}

impl vstd::std_specs::convert::FromSpecImpl<(u8, u8, u8)> for Color {
    open spec fn obeys_from_spec() -> bool {
        true
    }

    open spec fn from_spec(t: (u8, u8, u8)) -> Color {
        Color::RGB { r: t.0, g: t.1, b: t.2 }
    }
}

/// Records which stimulus resources are readied during `prepare`, in order.
///
/// The identifiers name backend-side resources; the core never inspects
/// them beyond passing them through.
pub struct RenderContext {
    pub prepared: Vec<u64>,
}

impl RenderContext {
    /// A context with nothing prepared yet.
    pub fn new() -> (ctx: RenderContext)
        ensures
            ctx.prepared@ =~= Seq::<u64>::empty(),
    {
        RenderContext { prepared: Vec::new() }
    }
}

/// One drawing command of a presentation cycle.
#[derive(Debug, Clone, Copy, PartialEq, Eq, Structural)]
pub enum DrawOp {
    /// Clear the target to the given color.
    Clear(Color),
    /// Draw the stimulus with the given backend resource identifier.
    Draw(u64),
}

/// Records the ordered draw commands issued during `render`.
pub struct DrawEncoder {
    pub ops: Vec<DrawOp>,
}

impl DrawEncoder {
    /// An encoder with no commands recorded yet.
    pub fn new() -> (enc: DrawEncoder)
        ensures
            enc.ops@ =~= Seq::<DrawOp>::empty(),
    {
        DrawEncoder { ops: Vec::new() }
    }
}

/// The capability contract implemented by every drawable thing.
///
/// `prepare` is always called before `render` for the same cycle;
/// `prepare` may ready resources, `render` only issues draw commands.
pub trait Renderable: Sized {
    /// Well-formedness that `prepare` and `render` demand and maintain.
    spec fn wf(&self) -> bool;

    /// Readies backend resources for this cycle, recording them in order.
    fn prepare(&mut self, ctx: &mut RenderContext)
        requires
            old(self).wf(),
        ensures
            final(self).wf(),
    ;

    /// Issues the cycle's draw commands, in draw order.
    fn render(&mut self, enc: &mut DrawEncoder)
        requires
            old(self).wf(),
        ensures
            final(self).wf(),
    ;

    /// Whether this renderable has declared its own completion.
    fn is_finnished(&self) -> bool {
        false
    }
}

/// A leaf stimulus: a handle to one backend-drawn element, together with
/// its self-declared completion condition.
#[derive(Debug, Clone, Copy, PartialEq, Eq, Structural)]
pub struct Stimulus {
    /// The backend resource identifier this stimulus draws with.
    pub id: u64,
    /// The stimulus's self-declared completion flag.
    pub finnished: bool,
}

impl Renderable for Stimulus {
    open spec fn wf(&self) -> bool {
        true
    }

    fn prepare(&mut self, ctx: &mut RenderContext)
        ensures
            *final(self) == *old(self),
            final(ctx).prepared@ == old(ctx).prepared@.push(old(self).id),
    {
        ctx.prepared.push(self.id);
    }

    fn render(&mut self, enc: &mut DrawEncoder)
        ensures
            *final(self) == *old(self),
            final(enc).ops@ == old(enc).ops@.push(DrawOp::Draw(old(self).id)),
    {
        enc.ops.push(DrawOp::Draw(self.id));
    }

    fn is_finnished(&self) -> (b: bool)
        ensures
            b == self.finnished,
    {
        self.finnished
    }
}

/// An ordered composite of stimuli representing one displayable image.
///
/// Built fresh per presentation cycle, never mutated after being handed to
/// the handoff channel, and consumed exactly once by the presentation side.
pub struct Frame {
    /// The attached stimuli, in insertion order; later entries draw on top.
    pub renderables: Vec<Stimulus>,
    /// Completion, propagated from the content that built the frame.
    pub is_finnished: bool,
    /// An optional background color, cleared to before any stimulus draws.
    pub bg_color: Option<Color>,
}

/// The ordered resource identifiers that preparing `f` records.
pub open spec fn prepare_plan(f: Frame) -> Seq<u64> {
    f.renderables@.map(|i: int, s: Stimulus| s.id)
}

/// The ordered draw commands that rendering `f` records: a clear to the
/// background color when one is set, then each stimulus in insertion order.
pub open spec fn render_plan(f: Frame) -> Seq<DrawOp> {
    let draws = f.renderables@.map(|i: int, s: Stimulus| DrawOp::Draw(s.id));
    match f.bg_color {
        Some(c) => seq![DrawOp::Clear(c)] + draws,
        None => draws,
    }
}

/// True of a frame with no stimuli, no background and no completion yet.
pub open spec fn frame_empty(f: Frame) -> bool {
    f.renderables@.len() == 0 && f.is_finnished == false && f.bg_color is None
}

impl Frame {
    /// Creates an empty frame.
    pub fn new() -> (f: Frame)
        ensures
            frame_empty(f),
    {
        Frame { renderables: Vec::new(), is_finnished: false, bg_color: None }
    }

    /// Creates a frame that clears to the given background color first.
    pub fn with_bg_color(color: Color) -> (f: Frame)
        ensures
            f.renderables@.len() == 0,
            f.is_finnished == false,
            f.bg_color == Some(color),
    {
        Frame { renderables: Vec::new(), is_finnished: false, bg_color: Some(color) }
    }

    /// Attaches a copy of the given stimulus, capturing its current state;
    /// insertion order is draw order, later additions draw on top.
    pub fn add(&mut self, renderable: &Stimulus)
        ensures
            final(self).renderables@ == old(self).renderables@.push(*renderable),
            final(self).is_finnished == old(self).is_finnished,
            final(self).bg_color == old(self).bg_color,
    {
        self.renderables.push(*renderable);
    }
}

impl Renderable for Frame {
    open spec fn wf(&self) -> bool {
        true
    }

    /// Readies every member in insertion order; the frame itself is
    /// unchanged, so preparing again without a render records the same plan.
    fn prepare(&mut self, ctx: &mut RenderContext)
        ensures
            *final(self) == *old(self),
            final(ctx).prepared@ == old(ctx).prepared@ + prepare_plan(*old(self)),
    {
        let n = self.renderables.len();
        let mut i: usize = 0;
        while i < n
            invariant
                n == self.renderables.len(),
                i <= n,
                *self == *old(self),
                ctx.prepared@ == old(ctx).prepared@ + prepare_plan(*old(self)).take(i as int),
            decreases n - i,
        {
            ctx.prepared.push(self.renderables[i].id);
            proof {
                assert(prepare_plan(*old(self)).take(i + 1 as int)
                    =~= prepare_plan(*old(self)).take(i as int).push(
                    old(self).renderables@[i as int].id));
                assert(ctx.prepared@ =~= old(ctx).prepared@ + prepare_plan(*old(self)).take(
                    i + 1 as int));
            }
            i = i + 1;
        }
        proof {
            assert(prepare_plan(*old(self)).take(n as int) =~= prepare_plan(*old(self)));
        }
    }

    /// Draws the background clear, when set, then every member in
    /// insertion order.
    fn render(&mut self, enc: &mut DrawEncoder)
        ensures
            *final(self) == *old(self),
            final(enc).ops@ == old(enc).ops@ + render_plan(*old(self)),
    {
        let ghost base = enc.ops@;
        match self.bg_color {
            Some(c) => {
                enc.ops.push(DrawOp::Clear(c));
            },
            None => {},
        }
        let ghost cleared = enc.ops@;
        let n = self.renderables.len();
        let mut i: usize = 0;
        while i < n
            invariant
                n == self.renderables.len(),
                i <= n,
                *self == *old(self),
                enc.ops@ == cleared + self.renderables@.map(|j: int, s: Stimulus| DrawOp::Draw(s.id)).take(i as int),
            decreases n - i,
        {
            enc.ops.push(DrawOp::Draw(self.renderables[i].id));
            proof {
                let draws = old(self).renderables@.map(|j: int, s: Stimulus| DrawOp::Draw(s.id));
                assert(draws.take(i + 1 as int) =~= draws.take(i as int).push(
                    DrawOp::Draw(old(self).renderables@[i as int].id)));
                assert(enc.ops@ =~= cleared + draws.take(i + 1 as int));
            }
            i = i + 1;
        }
        proof {
            let draws = old(self).renderables@.map(|j: int, s: Stimulus| DrawOp::Draw(s.id));
            assert(draws.take(n as int) =~= draws);
            assert(cleared + draws =~= base + render_plan(*old(self)));
        }
    }

    /// A frame reports the completion that its content propagated into it.
    fn is_finnished(&self) -> (b: bool)
        ensures
            b == self.is_finnished,
    {
        self.is_finnished
    }
}

/// Wraps a per-frame content function behind the renderable contract,
/// tracking a termination flag.
///
/// On `prepare` the adapter builds a fresh frame by handing an empty frame
/// to the content function, readies it, and retains it as pending state.
/// On `render` a pending frame is drawn, its completion propagated, and
/// the pending state consumed; a second `render` without an intervening
/// `prepare` is a no-op.
pub struct Screen<F> where F: Fn(Frame) -> Frame {
    /// The content function: it receives an empty frame and returns the
    /// populated frame for this cycle.
    pub render_func: F,
    /// The frame built by the last `prepare`, not yet rendered.
    pub frame: Option<Frame>,
    /// Set once a rendered frame reported completion; the screen then
    /// reports completion itself.
    pub finnish: bool,
}

impl<F> Screen<F> where F: Fn(Frame) -> Frame {
    /// Creates a screen adapter around the given content function.
    pub fn new(render_func: F) -> (s: Screen<F>)
        ensures
            s.render_func == render_func,
            s.frame is None,
            s.finnish == false,
    {
        Screen { render_func, frame: None, finnish: false }
    }
}

/// A screen adapter is well-formed exactly when its content function
/// accepts every empty frame; a content function without a precondition
/// satisfies this for free.
pub proof fn lemma_screen_wf<F: Fn(Frame) -> Frame>(s: &Screen<F>)
    requires
        forall|f: Frame| frame_empty(f) ==> call_requires(s.render_func, (f,)),
    ensures
        s.wf(),
{
}

impl<F> Renderable for Screen<F> where F: Fn(Frame) -> Frame {
    /// The content function must accept every empty frame.
    open spec fn wf(&self) -> bool {
        forall|f: Frame| frame_empty(f) ==> call_requires(self.render_func, (f,))
    }

    /// Builds this cycle's frame with the content function, readies it,
    /// and retains it as the pending frame.
    fn prepare(&mut self, ctx: &mut RenderContext)
        ensures
            final(self).render_func == old(self).render_func,
            final(self).finnish == old(self).finnish,
            final(self).frame is Some,
            exists|f0: Frame|
                frame_empty(f0) && #[trigger] call_ensures(
                    old(self).render_func,
                    (f0,),
                    final(self).frame->Some_0,
                ),
            final(ctx).prepared@ == old(ctx).prepared@ + prepare_plan(final(self).frame->Some_0),
    {
        let empty = Frame::new();
        let ghost handed = empty;
        let mut built = (self.render_func)(empty);
        built.prepare(ctx);
        self.frame = Some(built);
        proof {
            assert(frame_empty(handed));
            assert(call_ensures(old(self).render_func, (handed,), self.frame->Some_0));
        }
    }

    /// Renders the pending frame, propagates its completion, and consumes
    /// it; with no pending frame this is a no-op, not an error.
    fn render(&mut self, enc: &mut DrawEncoder)
        ensures
            final(self).render_func == old(self).render_func,
            old(self).frame is None ==> *final(self) == *old(self) && *final(enc) == *old(enc),
            old(self).frame matches Some(f) ==> final(enc).ops@ == old(enc).ops@ + render_plan(f)
                && final(self).frame is None
                && final(self).finnish == (old(self).finnish || f.is_finnished),
    {
        let pending = self.frame.take();
        match pending {
            Some(mut f) => {
                f.render(enc);
                if f.is_finnished {
                    self.finnish = true;
                }
            },
            None => {},
        }
    }

    /// Reports completion once a rendered frame has declared it.
    fn is_finnished(&self) -> (b: bool)
        ensures
            b == self.finnish,
    {
        self.finnish
    }
}

} // verus!
