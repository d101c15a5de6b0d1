use ergo::{apply, apply_transform, apply_transforms, rotate_z, shift, upscale, Fx, Gl, Prim};

#[test]
fn fresh_state_has_identity_frame() {
    let gl = Gl::new();
    assert_eq!(gl.depth(), 1);
    assert!(gl.model().prims.is_empty());
    assert!(gl.ops.is_empty());
}

#[test]
fn apply_restores_depth() {
    let gl = Gl::new();
    let gl = apply(gl, shift(Fx::one(), Fx::zero()), |g| {
        assert_eq!(g.depth(), 2);
        g
    });
    assert_eq!(gl.depth(), 1);
    assert!(gl.model().prims.is_empty());
}

#[test]
fn apply_restores_depth_under_nesting() {
    let gl = Gl::new();
    let gl = apply(gl, shift(Fx::one(), Fx::zero()), |g| {
        let g = apply(g, rotate_z(Fx::from_raw(100)), |g2| {
            assert_eq!(g2.depth(), 3);
            g2
        });
        assert_eq!(g.depth(), 2);
        g
    });
    assert_eq!(gl.depth(), 1);
}

#[test]
fn nested_applies_compose_like_a_single_one() {
    let a = shift(Fx::one(), Fx::zero());
    let b = rotate_z(Fx::from_raw(100));

    let mut nested_effective = Vec::new();
    let gl = apply(Gl::new(), a.duplicate(), |g| {
        apply(g, b.duplicate(), |g2| {
            nested_effective = g2.model().prims.clone();
            g2
        })
    });
    assert_eq!(gl.depth(), 1);

    let mut single_effective = Vec::new();
    let gl = apply(Gl::new(), a.compose(b), |g| {
        single_effective = g.model().prims.clone();
        g
    });
    assert_eq!(gl.depth(), 1);

    assert_eq!(nested_effective, single_effective);
    assert_eq!(
        nested_effective,
        vec![Prim::Shift { x: 65536, y: 0 }, Prim::RotZ { a: 100 }]
    );
}

#[test]
fn apply_transform_matches_apply() {
    let gl = apply_transform(Gl::new(), upscale(Fx::from_int(2)), |g| {
        assert_eq!(g.model().prims, vec![Prim::Scale { x: 131072, y: 131072 }]);
        g
    });
    assert_eq!(gl.depth(), 1);
}

#[test]
fn apply_transforms_puts_first_listed_outermost() {
    let rotation = rotate_z(Fx::from_raw(200));
    let translation = shift(Fx::one(), Fx::zero());

    let mut many_effective = Vec::new();
    let gl = apply_transforms(
        Gl::new(),
        &vec![rotation.duplicate(), translation.duplicate()],
        |g| {
            assert_eq!(g.depth(), 3);
            many_effective = g.model().prims.clone();
            g
        },
    );
    assert_eq!(gl.depth(), 1);

    let mut nested_effective = Vec::new();
    let gl = apply(Gl::new(), rotation, |g| {
        apply(g, translation, |g2| {
            nested_effective = g2.model().prims.clone();
            g2
        })
    });
    assert_eq!(gl.depth(), 1);

    assert_eq!(many_effective, nested_effective);
    assert_eq!(
        many_effective,
        vec![Prim::RotZ { a: 200 }, Prim::Shift { x: 65536, y: 0 }]
    );
}

#[test]
fn apply_transforms_restores_depth_with_nested_pushes() {
    let gl = apply_transforms(
        Gl::new(),
        &vec![shift(Fx::one(), Fx::one()), rotate_z(Fx::from_raw(7))],
        |g| {
            apply(g, upscale(Fx::from_int(3)), |g2| {
                assert_eq!(g2.depth(), 4);
                g2
            })
        },
    );
    assert_eq!(gl.depth(), 1);
}

#[test]
fn the_two_orders_differ_inside_the_scopes() {
    let rotation = rotate_z(Fx::from_raw(200));
    let translation = shift(Fx::one(), Fx::zero());

    let mut rt = Vec::new();
    let gl = apply_transforms(
        Gl::new(),
        &vec![rotation.duplicate(), translation.duplicate()],
        |g| {
            rt = g.model().prims.clone();
            g
        },
    );
    assert_eq!(gl.depth(), 1);

    let mut tr = Vec::new();
    let gl = apply_transforms(Gl::new(), &vec![translation, rotation], |g| {
        tr = g.model().prims.clone();
        g
    });
    assert_eq!(gl.depth(), 1);

    assert_ne!(rt, tr);
}

#[test]
fn apply_transforms_with_no_transforms_changes_nothing() {
    let gl = apply_transforms(Gl::new(), &vec![], |g| {
        assert_eq!(g.depth(), 1);
        g
    });
    assert_eq!(gl.depth(), 1);
    assert!(gl.model().prims.is_empty());
}
