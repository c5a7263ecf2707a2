use vec2d::Vec2D;

#[test]
fn add() {
    let a = Vec2D::new(7, 9);
    let b = Vec2D::new(2, 4);
    assert_eq!(a + b, Vec2D::new(9, 13));
}

#[test]
fn sub() {
    let a = Vec2D::new(5, 6);
    let b = Vec2D::new(5, 1);
    assert_eq!(a - b, Vec2D::new(0, 5));
}

#[test]
fn mul() {
    let a = Vec2D::new(8, 2);
    assert_eq!(a * 5, Vec2D::new(40, 10));
}

#[test]
fn add_assign() {
    let mut a = Vec2D::new(1, 7);
    let b = Vec2D::new(4, 5);
    a += b;
    assert_eq!(a, Vec2D::new(5, 12));
}

#[test]
fn sub_assign() {
    let mut a = Vec2D::new(9, 1);
    let b = Vec2D::new(7, 5);
    a -= b;
    assert_eq!(a, Vec2D::new(2, -4));
}

#[test]
fn mul_assign() {
    let mut a = Vec2D::new(9, 3);
    a *= 4;
    assert_eq!(a, Vec2D::new(36, 12));
}

#[test]
fn neg() {
    let a = Vec2D::new(7, 1);
    assert_eq!(-a, Vec2D::new(-7, -1));
}

fn samples() -> Vec<Vec2D<i64>> {
    let coords = [-7i64, -1, 0, 1, 3, 1000];
    let mut out = Vec::new();
    for x in coords {
        for y in coords {
            out.push(Vec2D::new(x, y));
        }
    }
    out
}

#[test]
fn addition_commutes() {
    for a in samples() {
        for b in samples() {
            assert_eq!(a + b, b + a);
        }
    }
}

#[test]
fn opposite_and_self_difference_are_zero() {
    let zero = Vec2D::new(0i64, 0i64);
    for a in samples() {
        assert_eq!(a + (-a), zero);
        assert_eq!(a - a, zero);
    }
}

#[test]
fn scaling_by_one_and_zero() {
    let zero = Vec2D::new(0i64, 0i64);
    for a in samples() {
        assert_eq!(a * 1, a);
        assert_eq!(a * 0, zero);
    }
}

#[test]
fn in_place_operators_match_the_operators() {
    for a in samples() {
        for b in samples() {
            let mut s = a;
            s += b;
            assert_eq!(s, a + b);
            let mut d = a;
            d -= b;
            assert_eq!(d, a - b);
            let mut m = a;
            m *= b.x;
            assert_eq!(m, a * b.x);
        }
    }
}

#[test]
fn operators_are_component_wise() {
    let a = Vec2D::new(-3i64, 10);
    let b = Vec2D::new(4i64, -6);
    assert_eq!((a + b).x, -3 + 4);
    assert_eq!((a + b).y, 10 - 6);
    assert_eq!((a - b).x, -3 - 4);
    assert_eq!((a - b).y, 10 + 6);
    assert_eq!((a * -2).x, 6);
    assert_eq!((a * -2).y, -20);
    assert_eq!((-b).x, -4);
    assert_eq!((-b).y, 6);
}

#[test]
fn operators_on_unsigned_scalars() {
    let a = Vec2D::new(7u32, 9u32);
    let b = Vec2D::new(2u32, 4u32);
    assert_eq!(a + b, Vec2D::new(9u32, 13u32));
    assert_eq!(a - b, Vec2D::new(5u32, 5u32));
    assert_eq!(a * 3, Vec2D::new(21u32, 27u32));
}

#[test]
fn operators_on_floating_scalars() {
    let a = Vec2D::new(1.5f64, -2.0);
    let b = Vec2D::new(0.25f64, 4.0);
    assert_eq!(a + b, Vec2D::new(1.75, 2.0));
    assert_eq!(a - b, Vec2D::new(1.25, -6.0));
    assert_eq!(a * 2.0, Vec2D::new(3.0, -4.0));
    assert_eq!(-a, Vec2D::new(-1.5, 2.0));
}
