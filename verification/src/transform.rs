//! A transform: position, orientation and scale, composed on demand into
//! a single 4 by 4 model matrix (translate, then rotate, then scale).
//! The matrix is the only form handed on for upload.

use vstd::prelude::*;
use crate::camera::{Vec3, POS_LIMIT};
use crate::fixed::{div_trunc, div_trunc_i128, lemma_div_trunc_bound, ONE};

verus! {

/// Largest scale factor magnitude a transform may carry.
pub const SCALE_MAX: i64 = 1024 * ONE;

/// A rotation as a fixed-point quaternion. A well-formed one is close to
/// unit length, so every component stays within one unit.
#[derive(Debug, Clone, Copy, PartialEq, Eq, Structural)]
pub struct Quaternion {
    pub x: i64,
    pub y: i64,
    pub z: i64,
    pub w: i64,
}

/// Position, orientation and scale of one drawn instance.
#[derive(Debug, Clone, Copy, PartialEq, Eq, Structural)]
pub struct Transform {
    pub position: Vec3,
    pub rotation: Quaternion,
    pub scale: Vec3,
}

/// The model matrix in row-major order, 16 fixed-point entries.
pub struct TransformRaw {
    pub model: Vec<i64>,
}

/// Entry `(i, j)` of the rotation matrix of `q`, fixed-point.
pub open spec fn rot_entry(q: Quaternion, i: int, j: int) -> int {
    if i == 0 && j == 0 {
        ONE - div_trunc(2 * (q.y * q.y + q.z * q.z), ONE as int)
    } else if i == 0 && j == 1 {
        div_trunc(2 * (q.x * q.y - q.z * q.w), ONE as int)
    } else if i == 0 && j == 2 {
        div_trunc(2 * (q.x * q.z + q.y * q.w), ONE as int)
    } else if i == 1 && j == 0 {
        div_trunc(2 * (q.x * q.y + q.z * q.w), ONE as int)
    } else if i == 1 && j == 1 {
        ONE - div_trunc(2 * (q.x * q.x + q.z * q.z), ONE as int)
    } else if i == 1 && j == 2 {
        div_trunc(2 * (q.y * q.z - q.x * q.w), ONE as int)
    } else if i == 2 && j == 0 {
        div_trunc(2 * (q.x * q.z - q.y * q.w), ONE as int)
    } else if i == 2 && j == 1 {
        div_trunc(2 * (q.y * q.z + q.x * q.w), ONE as int)
    } else {
        ONE - div_trunc(2 * (q.x * q.x + q.y * q.y), ONE as int)
    }
}

/// The scale factor of column `j`.
pub open spec fn scale_of(t: Transform, j: int) -> int {
    if j == 0 {
        t.scale.x as int
    } else if j == 1 {
        t.scale.y as int
    } else {
        t.scale.z as int
    }
}

/// The position component of row `i`.
pub open spec fn position_of(t: Transform, i: int) -> int {
    if i == 0 {
        t.position.x as int
    } else if i == 1 {
        t.position.y as int
    } else {
        t.position.z as int
    }
}

/// Entry `(i, j)` of the model matrix: the rotation column scaled, the
/// translation in the last column, and a homogeneous last row.
pub open spec fn model_entry(t: Transform, i: int, j: int) -> int {
    if i < 3 && j < 3 {
        div_trunc(rot_entry(t.rotation, i, j) * scale_of(t, j), ONE as int)
    } else if i < 3 && j == 3 {
        position_of(t, i)
    } else if i == 3 && j == 3 {
        ONE as int
    } else {
        0
    }
}

impl Transform {
    /// Quaternion components within one unit, scale within range, and
    /// the position inside the world range.
    pub open spec fn wf(&self) -> bool {
        &&& -ONE <= self.rotation.x <= ONE
        &&& -ONE <= self.rotation.y <= ONE
        &&& -ONE <= self.rotation.z <= ONE
        &&& -ONE <= self.rotation.w <= ONE
        &&& -SCALE_MAX <= self.scale.x <= SCALE_MAX
        &&& -SCALE_MAX <= self.scale.y <= SCALE_MAX
        &&& -SCALE_MAX <= self.scale.z <= SCALE_MAX
        &&& -POS_LIMIT <= self.position.x <= POS_LIMIT
        &&& -POS_LIMIT <= self.position.y <= POS_LIMIT
        &&& -POS_LIMIT <= self.position.z <= POS_LIMIT
    }

    /// Compose the model matrix.
    pub fn to_raw(&self) -> (r: TransformRaw)
        requires
            self.wf(),
        ensures
            r.model@.len() == 16,
            forall|i: int, j: int|
                0 <= i < 4 && 0 <= j < 4 ==> r.model@[4 * i + j] == model_entry(*self, i, j),
    {
        let q = self.rotation;
        let qx: i128 = q.x as i128;
        let qy: i128 = q.y as i128;
        let qz: i128 = q.z as i128;
        let qw: i128 = q.w as i128;
        assert(-0x100000000 <= qx * qx <= 0x100000000 && -0x100000000 <= qy * qy <= 0x100000000
            && -0x100000000 <= qz * qz <= 0x100000000 && -0x100000000 <= qx * qy <= 0x100000000
            && -0x100000000 <= qz * qw <= 0x100000000 && -0x100000000 <= qx * qz <= 0x100000000
            && -0x100000000 <= qy * qw <= 0x100000000 && -0x100000000 <= qy * qz <= 0x100000000
            && -0x100000000 <= qx * qw <= 0x100000000) by (nonlinear_arith)
            requires
                -0x10000 <= qx <= 0x10000,
                -0x10000 <= qy <= 0x10000,
                -0x10000 <= qz <= 0x10000,
                -0x10000 <= qw <= 0x10000,
        ;
        let xx: i128 = qx * qx;
        let yy: i128 = qy * qy;
        let zz: i128 = qz * qz;
        let xy: i128 = qx * qy;
        let zw: i128 = qz * qw;
        let xz: i128 = qx * qz;
        let yw: i128 = qy * qw;
        let yz: i128 = qy * qz;
        let xw: i128 = qx * qw;

        let r00: i128 = 65536 - rot_combine(yy, zz);
        let r01: i128 = rot_combine(xy, -zw);
        let r02: i128 = rot_combine(xz, yw);
        let r10: i128 = rot_combine(xy, zw);
        let r11: i128 = 65536 - rot_combine(xx, zz);
        let r12: i128 = rot_combine(yz, -xw);
        let r20: i128 = rot_combine(xz, -yw);
        let r21: i128 = rot_combine(yz, xw);
        let r22: i128 = 65536 - rot_combine(xx, yy);

        let mut model: Vec<i64> = Vec::new();
        model.push(scaled(r00, self.scale.x));
        model.push(scaled(r01, self.scale.y));
        model.push(scaled(r02, self.scale.z));
        model.push(self.position.x);
        model.push(scaled(r10, self.scale.x));
        model.push(scaled(r11, self.scale.y));
        model.push(scaled(r12, self.scale.z));
        model.push(self.position.y);
        model.push(scaled(r20, self.scale.x));
        model.push(scaled(r21, self.scale.y));
        model.push(scaled(r22, self.scale.z));
        model.push(self.position.z);
        model.push(0);
        model.push(0);
        model.push(0);
        model.push(65536);

        let r = TransformRaw { model };
        proof {
            assert forall|i: int, j: int|
                0 <= i < 4 && 0 <= j < 4 implies r.model@[4 * i + j] == model_entry(
                *self,
                i,
                j,
            ) by {
                assert(r.model@[4 * i + j] == model_entry(*self, i, j));
            }
        }
        r
    }
}

/// One off-center rotation term: twice the sum of two quaternion
/// products, brought back to fixed point.
fn rot_combine(p1: i128, p2: i128) -> (r: i128)
    requires
        -0x100000000 <= p1 <= 0x100000000,
        -0x100000000 <= p2 <= 0x100000000,
    ensures
        r == div_trunc(2 * (p1 + p2), ONE as int),
        -0x80000 <= r <= 0x80000,
{
    let s: i128 = 2 * (p1 + p2);
    let r: i128 = div_trunc_i128(s, 65536);
    proof {
        lemma_div_trunc_bound(s as int, 65536, 0x400000000);
    }
    r
}

/// Scale one rotation entry by a scale factor.
fn scaled(r: i128, s: i64) -> (m: i64)
    requires
        -0x90000 <= r <= 0x90000,
        -SCALE_MAX <= s <= SCALE_MAX,
    ensures
        m == div_trunc(r * (s as int), ONE as int),
{
    let sw: i128 = s as i128;
    assert(-0x2400000000000 <= r * sw <= 0x2400000000000) by (nonlinear_arith)
        requires
            -0x90000 <= r <= 0x90000,
            -0x4000000 <= sw <= 0x4000000,
    ;
    let p: i128 = r * sw;
    let q: i128 = div_trunc_i128(p, 65536);
    proof {
        lemma_div_trunc_bound(p as int, 65536, 0x2400000000000);
    }
    q as i64
}

} // verus!
