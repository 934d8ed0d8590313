//! Tests of the pose transform and the scalar bit classifiers.

use stereo_pipeline::pose::{column_norm, Mat4, TrackingMatrix};
use stereo_pipeline::render::ProjectionBounds;
use stereo_pipeline::scalar::{copysign, is_at_least_zero, is_below_zero, is_finite, is_nan,
    is_zero, lt, negate, ONE_BITS, ZERO_BITS};

fn bits(v: f32) -> u32 {
    v.to_bits()
}

fn matrix(rows: [[f32; 4]; 3]) -> TrackingMatrix {
    TrackingMatrix {
        m00: bits(rows[0][0]),
        m01: bits(rows[0][1]),
        m02: bits(rows[0][2]),
        m03: bits(rows[0][3]),
        m10: bits(rows[1][0]),
        m11: bits(rows[1][1]),
        m12: bits(rows[1][2]),
        m13: bits(rows[1][3]),
        m20: bits(rows[2][0]),
        m21: bits(rows[2][1]),
        m22: bits(rows[2][2]),
        m23: bits(rows[2][3]),
    }
}

fn mat4_entries(m: Mat4) -> [[u32; 4]; 4] {
    [
        [m.m00, m.m01, m.m02, m.m03],
        [m.m10, m.m11, m.m12, m.m13],
        [m.m20, m.m21, m.m22, m.m23],
        [m.m30, m.m31, m.m32, m.m33],
    ]
}

#[test]
fn position_is_the_translation_column() {
    let m = matrix([
        [1.0, 0.0, 0.0, 1.25],
        [0.0, 1.0, 0.0, -2.5],
        [0.0, 0.0, 1.0, 3.75],
    ]);
    let p = m.position();
    assert_eq!(p.x, bits(1.25));
    assert_eq!(p.y, bits(-2.5));
    assert_eq!(p.z, bits(3.75));
}

#[test]
fn position_round_trips_through_storage() {
    let stored: [f32; 3] = [0.1, -0.0, 123456.78];
    let m = matrix([
        [0.5, 0.6, 0.7, stored[0]],
        [0.8, 0.9, 1.0, stored[1]],
        [1.1, 1.2, 1.3, stored[2]],
    ]);
    let p = m.position();
    assert_eq!(f32::from_bits(p.x), stored[0]);
    assert_eq!(f32::from_bits(p.y).to_bits(), stored[1].to_bits());
    assert_eq!(f32::from_bits(p.z), stored[2]);
}

#[test]
fn rotation_of_identity_is_identity() {
    let m = matrix([
        [1.0, 0.0, 0.0, 9.0],
        [0.0, 1.0, 0.0, 9.0],
        [0.0, 0.0, 1.0, 9.0],
    ]);
    let r = m.orthonormalized_rotation();
    let expected: [[f32; 4]; 4] = [
        [1.0, 0.0, 0.0, 0.0],
        [0.0, 1.0, 0.0, 0.0],
        [0.0, 0.0, 1.0, 0.0],
        [0.0, 0.0, 0.0, 1.0],
    ];
    let got = mat4_entries(r);
    for row in 0..4 {
        for col in 0..4 {
            assert_eq!(got[row][col], expected[row][col].to_bits());
        }
    }
}

#[test]
fn rotation_divides_by_exact_column_norms() {
    // Column 0 is (3, 4, 0) with norm 5; column 1 is (0, 6, 8) with
    // norm 10: the divisions are exact in binary32.
    let m = matrix([
        [3.0, 0.0, 0.5, 0.0],
        [4.0, 6.0, 0.25, 0.0],
        [0.0, 8.0, 0.125, 0.0],
    ]);
    let r = m.orthonormalized_rotation();
    // Row 0 is column 0 normalized: (0.6, 0.8, 0.0).
    assert_eq!(r.m00, bits(0.6));
    assert_eq!(r.m01, bits(0.8));
    assert_eq!(r.m02, bits(0.0));
    // Row 1 is column 1 normalized: (0.0, 0.6, 0.8).
    assert_eq!(r.m10, bits(0.0));
    assert_eq!(r.m11, bits(0.6));
    assert_eq!(r.m12, bits(0.8));
    // Row 2 is column 2 carried over without normalization.
    assert_eq!(r.m20, bits(0.5));
    assert_eq!(r.m21, bits(0.25));
    assert_eq!(r.m22, bits(0.125));
}

#[test]
fn rotation_first_two_rows_have_unit_norm() {
    // An arbitrary well-conditioned matrix: after normalization the
    // first two rows of the output must have Euclidean norm 1 in their
    // first three components, up to binary32 rounding.
    let m = matrix([
        [2.0, -1.0, 0.5, 7.0],
        [0.5, 3.0, -0.25, 8.0],
        [-1.5, 0.75, 2.5, 9.0],
    ]);
    let r = m.orthonormalized_rotation();
    for row in [[r.m00, r.m01, r.m02], [r.m10, r.m11, r.m12]] {
        let norm: f32 = row
            .iter()
            .map(|b| {
                let v = f32::from_bits(*b);
                v * v
            })
            .sum::<f32>()
            .sqrt();
        assert!((norm - 1.0).abs() < 1e-5, "row norm {} is not 1", norm);
    }
}

#[test]
fn rotation_zeroes_translation_and_fixes_last_row() {
    let m = matrix([
        [2.0, -1.0, 0.5, 7.0],
        [0.5, f32::NAN, -0.25, 8.0],
        [-1.5, 0.75, f32::INFINITY, 9.0],
    ]);
    let r = m.orthonormalized_rotation();
    assert_eq!(r.m03, ZERO_BITS);
    assert_eq!(r.m13, ZERO_BITS);
    assert_eq!(r.m23, ZERO_BITS);
    assert_eq!(r.m30, ZERO_BITS);
    assert_eq!(r.m31, ZERO_BITS);
    assert_eq!(r.m32, ZERO_BITS);
    assert_eq!(r.m33, ONE_BITS);
}

#[test]
fn zero_norm_column_clamps_to_identity_axis_and_stays_finite() {
    // Column 0 has zero norm: its row is clamped to the identity axis
    // instead of dividing by zero, and nothing non-finite appears.
    let m = matrix([
        [0.0, 0.0, 0.25, 1.0],
        [0.0, 2.0, 0.5, 2.0],
        [0.0, 0.0, 0.75, 3.0],
    ]);
    let r = m.orthonormalized_rotation();
    assert_eq!(r.m00, ONE_BITS);
    assert_eq!(r.m01, ZERO_BITS);
    assert_eq!(r.m02, ZERO_BITS);
    for row in mat4_entries(r) {
        for entry in row {
            assert!(f32::from_bits(entry).is_finite());
        }
    }
}

#[test]
fn all_zero_rotation_block_stays_finite() {
    let m = matrix([
        [0.0, 0.0, 0.0, 1.0],
        [0.0, 0.0, 0.0, 2.0],
        [0.0, 0.0, 0.0, 3.0],
    ]);
    let r = m.orthonormalized_rotation();
    assert_eq!(r.m00, ONE_BITS);
    assert_eq!(r.m11, ONE_BITS);
    for row in mat4_entries(r) {
        for entry in row {
            assert!(f32::from_bits(entry).is_finite());
        }
    }
}

#[test]
fn embed_affine_keeps_rows_and_appends_homogeneous_row() {
    let m = matrix([
        [2.0, -1.0, 0.5, 7.0],
        [0.5, 3.0, -0.25, 8.0],
        [-1.5, 0.75, 2.5, 9.0],
    ]);
    let r = m.embed_affine();
    assert_eq!(
        [r.m00, r.m01, r.m02, r.m03],
        [m.m00, m.m01, m.m02, m.m03]
    );
    assert_eq!(
        [r.m10, r.m11, r.m12, r.m13],
        [m.m10, m.m11, m.m12, m.m13]
    );
    assert_eq!(
        [r.m20, r.m21, r.m22, r.m23],
        [m.m20, m.m21, m.m22, m.m23]
    );
    assert_eq!([r.m30, r.m31, r.m32, r.m33], [ZERO_BITS, ZERO_BITS, ZERO_BITS, ONE_BITS]);
}

#[test]
fn column_norm_matches_hardware_float_norm() {
    assert_eq!(column_norm(bits(3.0), bits(4.0), bits(0.0)), bits(5.0));
    assert_eq!(column_norm(bits(0.0), bits(0.0), bits(0.0)), bits(0.0));
    let expected: f32 = (1.0f32 * 1.0 + 2.0 * 2.0 + 3.0 * 3.0).sqrt();
    assert_eq!(column_norm(bits(1.0), bits(2.0), bits(3.0)), expected.to_bits());
}

#[test]
fn copysign_follows_the_sign_class_rule() {
    assert_eq!(copysign(bits(5.0), bits(-3.0)), bits(-5.0));
    assert_eq!(copysign(bits(-5.0), bits(2.0)), bits(5.0));
    assert_eq!(copysign(bits(5.0), bits(2.0)), bits(5.0));
    assert_eq!(copysign(bits(-5.0), bits(-2.0)), bits(-5.0));
    // A negative zero sign source counts as non-negative.
    assert_eq!(copysign(bits(5.0), bits(-0.0)), bits(5.0));
    // A NaN sign source falls in neither sign class, so the value is
    // negated.
    assert_eq!(copysign(bits(5.0), f32::NAN.to_bits()), bits(-5.0));
    assert_eq!(copysign(bits(-5.0), f32::NAN.to_bits()), bits(5.0));
}

#[test]
fn scalar_classifiers_agree_with_hardware_semantics() {
    let samples: [f32; 10] = [
        0.0,
        -0.0,
        1.0,
        -1.0,
        f32::INFINITY,
        f32::NEG_INFINITY,
        f32::NAN,
        f32::MIN_POSITIVE,
        1.0e-45,
        f32::MAX,
    ];
    for v in samples {
        let b = v.to_bits();
        assert_eq!(is_finite(b), v.is_finite(), "is_finite on {}", v);
        assert_eq!(is_nan(b), v.is_nan(), "is_nan on {}", v);
        assert_eq!(is_zero(b), v == 0.0 || v == -0.0, "is_zero on {}", v);
        assert_eq!(is_below_zero(b), v < 0.0, "is_below_zero on {}", v);
        assert_eq!(is_at_least_zero(b), v >= 0.0, "is_at_least_zero on {}", v);
        assert_eq!(negate(b), (-v).to_bits(), "negate on {}", v);
    }
}

#[test]
fn strict_order_agrees_with_hardware_comparison() {
    let samples: [f32; 12] = [
        0.0,
        -0.0,
        1.0,
        -1.0,
        0.5,
        -2.5,
        f32::INFINITY,
        f32::NEG_INFINITY,
        f32::NAN,
        f32::MIN_POSITIVE,
        1.0e-45,
        f32::MAX,
    ];
    for a in samples {
        for b in samples {
            assert_eq!(lt(a.to_bits(), b.to_bits()), a < b, "lt on {} and {}", a, b);
        }
    }
}

#[test]
fn frustum_validity_requires_ordered_bounds() {
    let good = ProjectionBounds {
        left: (-1.4f32).to_bits(),
        right: 1.2f32.to_bits(),
        bottom: (-1.5f32).to_bits(),
        top: 1.5f32.to_bits(),
    };
    assert!(good.is_valid_frustum());
    let flipped = ProjectionBounds {
        left: 1.2f32.to_bits(),
        right: (-1.4f32).to_bits(),
        bottom: (-1.5f32).to_bits(),
        top: 1.5f32.to_bits(),
    };
    assert!(!flipped.is_valid_frustum());
    let degenerate = ProjectionBounds {
        left: 0.0f32.to_bits(),
        right: (-0.0f32).to_bits(),
        bottom: (-1.5f32).to_bits(),
        top: 1.5f32.to_bits(),
    };
    assert!(!degenerate.is_valid_frustum());
    let nan_bound = ProjectionBounds {
        left: f32::NAN.to_bits(),
        right: 1.2f32.to_bits(),
        bottom: (-1.5f32).to_bits(),
        top: 1.5f32.to_bits(),
    };
    assert!(!nan_bound.is_valid_frustum());
}
