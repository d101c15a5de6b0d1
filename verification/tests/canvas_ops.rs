use ergo::{
    apply, draw_canvas, new_canvas, paint_canvas, rotate_z, shift, Camera, Fx, Gl, Prim,
};

#[test]
fn new_canvas_keeps_its_dimensions() {
    let c = new_canvas(512, 128);
    assert_eq!(c.width, 512);
    assert_eq!(c.height, 128);
}

#[test]
fn paint_canvas_restores_the_screen_target() {
    let inner = new_canvas(128, 128);
    let mut cam = Camera::new();
    assert_eq!(cam.render_target, None);
    paint_canvas(inner, &mut cam, |c| {
        assert_eq!(c.render_target, Some(inner));
        c
    });
    assert_eq!(cam.render_target, None);
}

#[test]
fn paint_canvas_restores_a_previous_canvas_target() {
    let first = new_canvas(64, 64);
    let second = new_canvas(32, 32);
    let mut cam = Camera {
        render_target: Some(first),
    };
    paint_canvas(second, &mut cam, |c| c);
    assert_eq!(cam.render_target, Some(first));
}

#[test]
fn paint_canvas_restores_under_three_levels_of_nesting() {
    let outer = new_canvas(512, 512);
    let middle = new_canvas(128, 128);
    let innermost = new_canvas(32, 32);
    let mut cam = Camera::new();
    paint_canvas(outer, &mut cam, |mut c| {
        assert_eq!(c.render_target, Some(outer));
        paint_canvas(middle, &mut c, |mut c2| {
            assert_eq!(c2.render_target, Some(middle));
            paint_canvas(innermost, &mut c2, |c3| {
                assert_eq!(c3.render_target, Some(innermost));
                c3
            });
            assert_eq!(c2.render_target, Some(middle));
            c2
        });
        assert_eq!(c.render_target, Some(outer));
        c
    });
    assert_eq!(cam.render_target, None);
}

#[test]
fn paint_canvas_overwrites_whatever_the_body_left_in_the_register() {
    let target = new_canvas(128, 128);
    let rogue = new_canvas(16, 16);
    let mut cam = Camera::new();
    paint_canvas(target, &mut cam, move |mut c| {
        c.render_target = Some(rogue);
        c
    });
    assert_eq!(cam.render_target, None);
}

#[test]
fn draw_canvas_records_the_quad_mapping() {
    let source = new_canvas(128, 128);
    let gl = draw_canvas(source, Gl::new(), Fx::one());
    assert_eq!(gl.depth(), 1);
    assert_eq!(gl.ops.len(), 1);
    let op = &gl.ops[0];
    assert_eq!(op.canvas, source);
    assert_eq!(op.opacity, Fx::one());
    assert_eq!(
        op.transform.prims,
        vec![
            Prim::Shift {
                x: -65536,
                y: -65536
            },
            Prim::Downscale { f: 128 * 32768 },
        ]
    );
}

#[test]
fn draw_canvas_normalizes_any_resolution_to_the_same_window() {
    let small = new_canvas(128, 128);
    let large = new_canvas(512, 512);
    let gl = draw_canvas(small, Gl::new(), Fx::one());
    let gl = draw_canvas(large, gl, Fx::one());
    assert_eq!(gl.ops.len(), 2);
    // Same fixed logical window: identical shift, scale set by pixel height
    // alone.
    assert_eq!(gl.ops[0].transform.prims[0], gl.ops[1].transform.prims[0]);
    assert_eq!(gl.ops[0].transform.prims[1], Prim::Downscale { f: 128 * 32768 });
    assert_eq!(gl.ops[1].transform.prims[1], Prim::Downscale { f: 512 * 32768 });
}

#[test]
fn draw_canvas_records_opacity_exactly() {
    let source = new_canvas(64, 64);
    let gl = draw_canvas(source, Gl::new(), Fx::zero());
    let gl = draw_canvas(source, gl, Fx::one());
    assert_eq!(gl.ops[0].opacity, Fx::zero());
    assert_eq!(gl.ops[1].opacity, Fx::one());
}

#[test]
fn draw_canvas_participates_in_the_transform_stack() {
    let source = new_canvas(128, 128);
    let position = shift(Fx::from_int(2), Fx::from_int(3));
    let spin = rotate_z(Fx::from_raw(500));
    let gl = apply(Gl::new(), position, |g| {
        apply(g, spin, |g2| draw_canvas(source, g2, Fx::one()))
    });
    assert_eq!(gl.depth(), 1);
    assert_eq!(gl.ops.len(), 1);
    assert_eq!(
        gl.ops[0].transform.prims,
        vec![
            Prim::Shift {
                x: 2 * 65536,
                y: 3 * 65536
            },
            Prim::RotZ { a: 500 },
            Prim::Shift {
                x: -65536,
                y: -65536
            },
            Prim::Downscale { f: 128 * 32768 },
        ]
    );
}

#[test]
fn draw_canvas_handles_the_largest_canvas() {
    let huge = new_canvas(u32::MAX, u32::MAX);
    let gl = draw_canvas(huge, Gl::new(), Fx::one());
    assert_eq!(
        gl.ops[0].transform.prims[1],
        Prim::Downscale {
            f: (u32::MAX as i64) * 32768
        }
    );
}
