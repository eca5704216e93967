//! The rotation that turns camera-local directions into world directions.
//!
//! The matrix is built from the sines and cosines of yaw and pitch, which the
//! host computes in floating point and hands over in millionths. Yaw turns
//! about the vertical axis; pitch turns about the camera's own horizontal axis.

use vstd::prelude::*;
use crate::fixed::{divide, multiply, product, quotient, saturate, saturating, ONE};

verus! {

/// Sines and cosines of the camera's yaw and pitch, in millionths.
#[derive(Clone, Copy, Debug, PartialEq, Eq)]
pub struct Trig {
    pub sin_yaw: i64,
    pub cos_yaw: i64,
    pub sin_pitch: i64,
    pub cos_pitch: i64,
}

/// Whether `x` lies between minus one and one, as a sine or a cosine does.
pub open spec fn unit(x: i64) -> bool {
    -ONE <= x <= ONE
}

impl Trig {
    /// Every component lies between minus one and one.
    pub open spec fn wf(self) -> bool {
        &&& unit(self.sin_yaw)
        &&& unit(self.cos_yaw)
        &&& unit(self.sin_pitch)
        &&& unit(self.cos_pitch)
    }

    /// The values for a camera that looks straight ahead: both angles zero.
    pub open spec fn level() -> Trig {
        Trig { sin_yaw: 0, cos_yaw: ONE, sin_pitch: 0, cos_pitch: ONE }
    }

    /// Accepts four values exactly when each lies between minus one and one.
    pub fn new(sin_yaw: i64, cos_yaw: i64, sin_pitch: i64, cos_pitch: i64) -> (trig: Option<Trig>)
        ensures
            trig == if unit(sin_yaw) && unit(cos_yaw) && unit(sin_pitch) && unit(cos_pitch) {
                Some(Trig { sin_yaw, cos_yaw, sin_pitch, cos_pitch })
            } else {
                None
            },
    {
        if in_unit(sin_yaw) && in_unit(cos_yaw) && in_unit(sin_pitch) && in_unit(cos_pitch) {
            Some(Trig { sin_yaw, cos_yaw, sin_pitch, cos_pitch })
        } else {
            None
        }
    }
}

fn in_unit(x: i64) -> (r: bool)
    ensures
        r == unit(x),
{
    -ONE <= x && x <= ONE
}

/// The row-major rotation matrix for the given sines and cosines:
///
/// ```text
/// [  cos(yaw)   sin(pitch)·sin(yaw)   cos(pitch)·sin(yaw) ]
/// [  0          cos(pitch)            -sin(pitch)         ]
/// [ -sin(yaw)   sin(pitch)·cos(yaw)   cos(pitch)·cos(yaw) ]
/// ```
pub open spec fn rotation(t: Trig) -> [[i64; 3]; 3] {
    [
        [
            t.cos_yaw,
            saturate(product(t.sin_pitch as int, t.sin_yaw as int)),
            saturate(product(t.cos_pitch as int, t.sin_yaw as int)),
        ],
        [0i64, t.cos_pitch, saturate(-t.sin_pitch)],
        [
            saturate(-t.sin_yaw),
            saturate(product(t.sin_pitch as int, t.cos_yaw as int)),
            saturate(product(t.cos_pitch as int, t.cos_yaw as int)),
        ],
    ]
}

/// Every entry of `m` lies between minus one and one.
pub open spec fn bounded(m: [[i64; 3]; 3]) -> bool {
    forall|i: int, j: int| 0 <= i < 3 && 0 <= j < 3 ==> unit(#[trigger] m[i][j])
}

/// One component of a matrix-vector product: the row `row` times the column `v`.
pub open spec fn row_times(row: [i64; 3], v: [i64; 3]) -> i64 {
    saturate(quotient(row[0] * v[0] + row[1] * v[1] + row[2] * v[2], ONE as int))
}

/// The matrix-vector product `m · v`, with `v` as a column.
pub open spec fn rotated(m: [[i64; 3]; 3], v: [i64; 3]) -> [i64; 3] {
    [row_times(m[0], v), row_times(m[1], v), row_times(m[2], v)]
}

/// Builds the rotation matrix for the given sines and cosines.
pub fn rotation_matrix(t: Trig) -> (m: [[i64; 3]; 3])
    requires
        t.wf(),
    ensures
        m == rotation(t),
        bounded(m),
{
    proof {
        lemma_rotation_bounded(t);
    }
    let m: [[i64; 3]; 3] = [
        [t.cos_yaw, multiply(t.sin_pitch, t.sin_yaw), multiply(t.cos_pitch, t.sin_yaw)],
        [0, t.cos_pitch, -t.sin_pitch],
        [-t.sin_yaw, multiply(t.sin_pitch, t.cos_yaw), multiply(t.cos_pitch, t.cos_yaw)],
    ];
    m
}

fn row_product(row: &[i64; 3], v: &[i64; 3]) -> (r: i64)
    requires
        unit(row[0]),
        unit(row[1]),
        unit(row[2]),
    ensures
        r == row_times(*row, *v),
{
    proof {
        lemma_term_bounded(row[0] as int, v[0] as int);
        lemma_term_bounded(row[1] as int, v[1] as int);
        lemma_term_bounded(row[2] as int, v[2] as int);
    }
    let x: i128 = (row[0] as i128) * (v[0] as i128);
    let y: i128 = (row[1] as i128) * (v[1] as i128);
    let z: i128 = (row[2] as i128) * (v[2] as i128);
    saturating(divide(x + y + z, ONE as i128))
}

/// Rotates the column vector `v` by `m`.
pub fn rotate(m: &[[i64; 3]; 3], v: &[i64; 3]) -> (w: [i64; 3])
    requires
        bounded(*m),
    ensures
        w == rotated(*m, *v),
{
    assert(forall|j: int| 0 <= j < 3 ==> unit(#[trigger] m[0][j]));
    assert(forall|j: int| 0 <= j < 3 ==> unit(#[trigger] m[1][j]));
    assert(forall|j: int| 0 <= j < 3 ==> unit(#[trigger] m[2][j]));
    let w: [i64; 3] = [row_product(&m[0], v), row_product(&m[1], v), row_product(&m[2], v)];
    w
}

/// The product of two sines or cosines is again between minus one and one.
pub proof fn lemma_product_unit(a: int, b: int)
    requires
        -ONE <= a <= ONE,
        -ONE <= b <= ONE,
    ensures
        -ONE <= product(a, b) <= ONE,
{
    assert(-1_000_000_000_000 <= a * b <= 1_000_000_000_000) by (nonlinear_arith)
        requires
            -1_000_000 <= a <= 1_000_000,
            -1_000_000 <= b <= 1_000_000,
    ;
}

/// The rotation matrix of valid sines and cosines has entries between minus one and one.
pub proof fn lemma_rotation_bounded(t: Trig)
    requires
        t.wf(),
    ensures
        bounded(rotation(t)),
{
    lemma_product_unit(t.sin_pitch as int, t.sin_yaw as int);
    lemma_product_unit(t.cos_pitch as int, t.sin_yaw as int);
    lemma_product_unit(t.sin_pitch as int, t.cos_yaw as int);
    lemma_product_unit(t.cos_pitch as int, t.cos_yaw as int);
    let m = rotation(t);
    assert forall|i: int, j: int| 0 <= i < 3 && 0 <= j < 3 implies unit(#[trigger] m[i][j]) by {
        if i == 0 {
            assert(m[0][0] == t.cos_yaw);
        } else if i == 1 {
            assert(m[1][1] == t.cos_pitch);
        } else {
            assert(m[2][0] == saturate(-t.sin_yaw));
        }
    }
}

/// With both angles zero the rotation is the identity, and it moves no vector.
pub proof fn lemma_level_is_identity(v: [i64; 3])
    ensures
        rotation(Trig::level()) == [[ONE, 0i64, 0i64], [0i64, ONE, 0i64], [0i64, 0i64, ONE]],
        rotated(rotation(Trig::level()), v) == v,
{
    let m = rotation(Trig::level());
    let id: [[i64; 3]; 3] = [[ONE, 0i64, 0i64], [0i64, ONE, 0i64], [0i64, 0i64, ONE]];
    assert(m[0] =~= id[0]);
    assert(m[1] =~= id[1]);
    assert(m[2] =~= id[2]);
    assert(m =~= id);
    assert forall|k: int| 0 <= k < 3 implies row_times(#[trigger] m[k], v) == v[k] by {
        let x = v[k] as int;
        if k == 0 {
            assert(m[0][0] * v[0] + m[0][1] * v[1] + m[0][2] * v[2] == ONE * x);
        } else if k == 1 {
            assert(m[1][0] * v[0] + m[1][1] * v[1] + m[1][2] * v[2] == ONE * x);
        } else {
            assert(m[2][0] * v[0] + m[2][1] * v[1] + m[2][2] * v[2] == ONE * x);
        }
        assert((ONE * x) / (ONE as int) == x);
        assert((-(ONE * x)) / (ONE as int) == -x);
    }
    assert(rotated(m, v) =~= v);
}

/// No matrix moves the zero vector.
pub proof fn lemma_rotate_zero(m: [[i64; 3]; 3])
    ensures
        rotated(m, [0i64, 0i64, 0i64]) == [0i64, 0i64, 0i64],
{
    let zero: [i64; 3] = [0i64, 0i64, 0i64];
    assert forall|k: int| 0 <= k < 3 implies row_times(#[trigger] m[k], zero) == 0 by {
        let row = m[k];
        assert(row[0] * 0 + row[1] * 0 + row[2] * 0 == 0) by (nonlinear_arith);
        assert(0int / (ONE as int) == 0);
    }
    assert(rotated(m, zero) =~= zero);
}

/// A matrix entry times a vector component stays far inside 128 bits.
proof fn lemma_term_bounded(r: int, x: int)
    requires
        -ONE <= r <= ONE,
        i64::MIN <= x <= i64::MAX,
    ensures
        -0x10_0000_0000_0000_0000_0000 <= r * x <= 0x10_0000_0000_0000_0000_0000,
{
    assert(-0x10_0000_0000_0000_0000_0000 <= r * x <= 0x10_0000_0000_0000_0000_0000)
        by (nonlinear_arith)
        requires
            -1_000_000 <= r <= 1_000_000,
            -0x8000_0000_0000_0000 <= x <= 0x7fff_ffff_ffff_ffff,
    {
        if r >= 0 && x >= 0 {
            assert(r * x <= 1_000_000 * 0x8000_0000_0000_0000);
        } else if r >= 0 {
            assert(r * x >= 1_000_000 * (-0x8000_0000_0000_0000));
        } else if x >= 0 {
            assert(r * x >= (-1_000_000) * 0x8000_0000_0000_0000);
        } else {
            assert(r * x <= (-1_000_000) * (-0x8000_0000_0000_0000));
        }
    }
}

} // verus!
