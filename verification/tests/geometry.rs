use vec2d::Vec2D;

#[test]
fn normal() {
    let a = Vec2D::new(6, 8);
    assert_eq!(a.normal(), Vec2D::new(-8, 6));
}

#[test]
fn dot() {
    let a = Vec2D::new(6, 1);
    let b = Vec2D::new(4, 2);
    assert_eq!(Vec2D::dot(a, b), 26);
}

#[test]
fn len_sq() {
    let a = Vec2D::new(5, 7);
    assert_eq!(a.len_sq(), 74);
}

#[test]
fn det() {
    let a = Vec2D::new(-6, 1);
    let b = Vec2D::new(9, 4);
    assert_eq!(Vec2D::det(a, b), -33);
}

#[test]
fn proj() {
    let a = Vec2D::new(-2, 4);
    let b = Vec2D::new(3, -1);
    assert_eq!(a.proj(b), Vec2D::new(-3, 1));
}

fn samples() -> Vec<Vec2D<i64>> {
    let coords = [-7i64, -1, 0, 1, 3, 1000];
    let mut out = Vec::new();
    for x in coords {
        for y in coords {
            out.push(Vec2D::new(x, y));
        }
    }
    out
}

#[test]
fn dot_commutes() {
    for a in samples() {
        for b in samples() {
            assert_eq!(Vec2D::dot(a, b), Vec2D::dot(b, a));
        }
    }
}

#[test]
fn det_changes_sign_when_swapped() {
    for a in samples() {
        for b in samples() {
            assert_eq!(Vec2D::det(a, b), -Vec2D::det(b, a));
        }
    }
}

#[test]
fn det_with_itself_is_zero() {
    for a in samples() {
        assert_eq!(Vec2D::det(a, a), 0);
    }
}

#[test]
fn normal_is_orthogonal() {
    for a in samples() {
        assert_eq!(Vec2D::dot(a, a.normal()), 0);
    }
}

#[test]
fn det_is_the_cross_product() {
    for a in samples() {
        for b in samples() {
            assert_eq!(Vec2D::det(a, b), a.x * b.y - a.y * b.x);
        }
    }
}

#[test]
fn det_is_positive_counterclockwise() {
    let east = Vec2D::new(1, 0);
    let north = Vec2D::new(0, 1);
    assert_eq!(Vec2D::det(east, north), 1);
    assert_eq!(Vec2D::det(north, east), -1);
}

#[test]
fn len_sq_is_the_sum_of_squares() {
    for a in samples() {
        assert_eq!(a.len_sq(), a.x * a.x + a.y * a.y);
        assert!(a.len_sq() >= 0);
    }
    assert_eq!(Vec2D::new(3, 4).len_sq(), 25);
    assert_eq!(Vec2D::new(0, 0).len_sq(), 0);
}

#[test]
fn normal_turns_counterclockwise() {
    assert_eq!(Vec2D::new(1, 0).normal(), Vec2D::new(0, 1));
    assert_eq!(Vec2D::new(0, 1).normal(), Vec2D::new(-1, 0));
    assert_eq!(Vec2D::new(-1, 0).normal(), Vec2D::new(0, -1));
    assert_eq!(Vec2D::new(0, -1).normal(), Vec2D::new(1, 0));
}

#[test]
fn proj_rounds_the_quotient_toward_zero() {
    // dot = -6, squared length = 4: the quotient -1.5 becomes -1.
    assert_eq!(Vec2D::new(-3, 0).proj(Vec2D::new(2, 0)), Vec2D::new(-2, 0));
    // dot = 2, squared length = 4: the quotient 0.5 becomes 0.
    assert_eq!(Vec2D::new(1, 5).proj(Vec2D::new(2, 0)), Vec2D::new(0, 0));
    // dot = 12, squared length = 4: the quotient is 3.
    assert_eq!(Vec2D::new(6, 9).proj(Vec2D::new(2, 0)), Vec2D::new(6, 0));
}

#[test]
fn proj_on_floating_scalars() {
    let p = Vec2D::new(3.0f64, 4.0).proj(Vec2D::new(2.0, 0.0));
    assert_eq!(p, Vec2D::new(3.0, 0.0));
}

#[test]
fn proj_on_the_zero_vector_of_floats_is_not_a_number() {
    let p = Vec2D::new(3.0f64, 4.0).proj(Vec2D::new(0.0, 0.0));
    assert!(p.x.is_nan());
    assert!(p.y.is_nan());
}

#[test]
fn length_from_the_squared_length() {
    let a = Vec2D::new(3, 4);
    assert_eq!(f64::sqrt(a.len_sq().into()), 5.);
}

#[test]
fn angle_from_dot_and_squared_lengths() {
    let a = Vec2D::new(2, 2);
    let b = Vec2D::new(1, 0);
    let d: f64 = Vec2D::dot(a, b).into();
    let la = f64::sqrt(a.len_sq().into());
    let lb = f64::sqrt(b.len_sq().into());
    let angle = f64::acos(d / (la * lb));
    assert!((angle - (std::f64::consts::PI / 4.0)).abs() < 1e-10);
    assert!((angle.to_degrees() - 45.).abs() < 1e-10);
}
