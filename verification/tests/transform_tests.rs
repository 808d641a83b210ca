use orbit_render::transform::Transform;

fn identity() -> Transform {
    Transform::new_identity()
}

/// A transform that scales by `s` on the diagonal of the upper 3x3 block.
fn scale(s: i64) -> Transform {
    let mut t = identity();
    t.m00 = s;
    t.m11 = s;
    t.m22 = s;
    t
}

/// A transform that translates by (x, y, z) in the last column.
fn translate(x: i64, y: i64, z: i64) -> Transform {
    let mut t = identity();
    t.m03 = x;
    t.m13 = y;
    t.m23 = z;
    t
}

#[test]
fn identity_entries() {
    let id = identity();
    assert_eq!(id.m00, 1);
    assert_eq!(id.m11, 1);
    assert_eq!(id.m22, 1);
    assert_eq!(id.m33, 1);
    assert_eq!(id.m01, 0);
    assert_eq!(id.m10, 0);
    assert_eq!(id.m30, 0);
    assert_eq!(id.m23, 0);
}

#[test]
fn compose_with_identity_is_unchanged() {
    let t = translate(5, -3, 9);
    assert_eq!(identity().compose(&t), t);
    assert_eq!(t.compose(&identity()), t);
}

#[test]
fn compose_translations_adds_offsets() {
    let a = translate(5, 1, 0);
    let b = translate(7, 2, -4);
    let c = a.compose(&b);
    assert_eq!(c, translate(12, 3, -4));
}

#[test]
fn compose_scales_multiplies() {
    let c = scale(2).compose(&scale(3));
    assert_eq!(c, scale(6));
}

#[test]
fn compose_scale_then_translate_exact() {
    // Row 0 of scale(2) dotted with column 3 of translate(7, 2, -4):
    // 2 * 7 + 0 * 2 + 0 * (-4) + 0 * 1 = 14.
    let c = scale(2).compose(&translate(7, 2, -4));
    let mut expected = scale(2);
    expected.m03 = 14;
    expected.m13 = 4;
    expected.m23 = -8;
    assert_eq!(c, expected);
}

#[test]
fn compose_wraps_on_overflow() {
    let mut a = identity();
    a.m00 = i64::MAX;
    let mut b = identity();
    b.m00 = 2;
    let c = a.compose(&b);
    // i64::MAX * 2 wraps to -2 in two's complement.
    assert_eq!(c.m00, -2);
}

#[test]
fn pre_concat_matches_compose() {
    let a = translate(1, 2, 3);
    let b = scale(4);
    let mut concat = a;
    concat.pre_concat(&b);
    assert_eq!(concat, a.compose(&b));
}
