use vstd::prelude::*;

use crate::fixed::{Fx, FX_ONE};
use crate::shorthands::{downscale, shift};
use crate::stack::{apply, pushed, Gl};
use crate::transform::{Prim, Transform};

verus! {

/// An off-screen color buffer with fixed pixel dimensions, created once and
/// reused every frame. The buffer's pixels live in the engine; the library
/// tracks the value that names the buffer: its dimensions.
#[derive(Clone, Copy, PartialEq, Eq, Structural, Debug)]
pub struct Canvas {
    pub width: u32,
    pub height: u32,
}

/// The camera register: which render target draw calls land in.
/// `None` is the screen. The view parameters themselves (the fixed
/// two-unit logical window) are constant and carry no state.
#[derive(Clone, Copy, PartialEq, Eq, Debug)]
pub struct Camera {
    pub render_target: Option<Canvas>,
}

/// One recorded textured-quad draw: a canvas's buffer drawn under an
/// effective transform with an opacity.
#[derive(Clone, Debug, PartialEq)]
pub struct DrawOp {
    pub canvas: Canvas,
    pub transform: Transform,
    pub opacity: Fx,
}

/// What a recorded draw is, mathematically.
pub ghost struct OpView {
    pub canvas: Canvas,
    pub transform: Seq<Prim>,
    pub opacity: Fx,
}

impl View for DrawOp {
    type V = OpView;

    open spec fn view(&self) -> OpView {
        OpView { canvas: self.canvas, transform: self.transform@, opacity: self.opacity }
    }
}

/// A fresh canvas of the given pixel dimensions.
pub fn new_canvas(w: u32, h: u32) -> (c: Canvas)
    ensures
        c.width == w,
        c.height == h,
{
    Canvas { width: w, height: h }
}

impl Camera {
    /// A camera aimed at the screen.
    pub fn new() -> (c: Camera)
        ensures
            c.render_target.is_none(),
    {
        Camera { render_target: None }
    }
}

/// Redirects drawing to `target` for the duration of `instructions`, then
/// restores the previous render target — unconditionally, whatever the body
/// did to the register, so nesting to any depth restores at every level.
///
/// The body receives the camera it must draw with, aimed at `target`;
/// whatever register value it hands back is overwritten by the saved one.
pub fn paint_canvas<F: FnOnce(Camera) -> Camera>(target: Canvas, camera: &mut Camera, instructions: F)
    requires
        forall|c: Camera| c.render_target == Some(target) ==> #[trigger] call_requires(
            instructions,
            (c,),
        ),
    ensures
        final(camera).render_target == old(camera).render_target,
        exists|c_out: Camera| call_ensures(
            instructions,
            ((Camera { render_target: Some(target) }),),
            c_out,
        ),
{
    let previous = camera.render_target;
    let inner = Camera { render_target: Some(target) };
    let mut after = instructions(inner);
    after.render_target = previous;
    *camera = after;
}

/// The steps that map a canvas's pixel extent onto the fixed logical window
/// around the origin: shift by (-1, -1), then scale down by half the pixel
/// height.
pub open spec fn canvas_quad(c: Canvas) -> Seq<Prim> {
    seq![
        (Prim::Shift { x: (-FX_ONE) as i64, y: (-FX_ONE) as i64 }),
        (Prim::Downscale { f: (c.height * 32768) as i64 }),
    ]
}

/// Draws `source`'s buffer as a textured quad in the caller's current
/// frame: the quad is recorded under the effective transform composed with
/// `canvas_quad(source)`, which normalizes the canvas's pixel extent to the
/// fixed logical window whatever its resolution. `opacity` multiplies the
/// draw's alpha and is recorded exactly; the transform stack is left as it
/// was.
pub fn draw_canvas(source: Canvas, gl: Gl, opacity: Fx) -> (out: Gl)
    requires
        gl.wf(),
    ensures
        out.wf(),
        out.stack_view() == gl.stack_view(),
        out.ops_view() == gl.ops_view().push(
            (OpView {
                canvas: source,
                transform: gl.effective() + canvas_quad(source),
                opacity,
            }),
        ),
{
    let minus_one = Fx { raw: -FX_ONE };
    let mapping = shift(minus_one, minus_one).compose(
        downscale(Fx { raw: (source.height as i64) * 32768 }),
    );
    proof {
        assert(mapping@ =~= canvas_quad(source));
    }
    let body = |g: Gl| -> (r: Gl)
        requires
            g.wf(),
        ensures
            r.stack_view() == g.stack_view(),
            r.ops_view() == g.ops_view().push(
                (OpView { canvas: source, transform: g.effective(), opacity }),
            ),
        {
            record_quad(source, g, opacity)
        };
    let out = apply(gl, mapping, body);
    proof {
        let (g1, g2) = choose|g1: Gl, g2: Gl|
            g1.wf() && g1.stack_view() == pushed(gl.stack_view(), mapping@) && g1.ops_view()
                == gl.ops_view() && #[trigger] call_ensures(body, (g1,), g2) && out.ops_view()
                == g2.ops_view();
        assert(g1.effective() =~= gl.effective() + canvas_quad(source));
        assert(out.ops_view() =~= gl.ops_view().push(
            (OpView {
                canvas: source,
                transform: gl.effective() + canvas_quad(source),
                opacity,
            }),
        ));
    }
    out
}

/// Records one textured-quad draw of `source` under the current effective
/// transform.
fn record_quad(source: Canvas, gl: Gl, opacity: Fx) -> (out: Gl)
    requires
        gl.wf(),
    ensures
        out.stack_view() == gl.stack_view(),
        out.ops_view() == gl.ops_view().push(
            (OpView { canvas: source, transform: gl.effective(), opacity }),
        ),
{
    let ghost orig = gl;
    let mut gl = gl;
    let top = gl.model().duplicate();
    gl.ops.push(DrawOp { canvas: source, transform: top, opacity });
    proof {
        assert(gl.stack_view() =~= orig.stack_view());
        assert(gl.ops_view() =~= orig.ops_view().push(
            (OpView { canvas: source, transform: orig.effective(), opacity }),
        ));
    }
    gl
}

} // verus!
