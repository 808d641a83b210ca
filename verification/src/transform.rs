//! 4x4 transform matrices for nested coordinate spaces, and the model of the
//! transform stack a renderer keeps during a render pass: pushes compose onto
//! the current top, pops never remove the base frame.

use vstd::prelude::*;

verus! {

/// A 4x4 transform matrix, row major: `mRC` is the entry at row R, column C.
/// Entries are 64-bit integers; composition wraps on overflow.
#[derive(Debug, Clone, Copy, PartialEq, Eq, Structural)]
pub struct Transform {
    pub m00: i64,
    pub m01: i64,
    pub m02: i64,
    pub m03: i64,
    pub m10: i64,
    pub m11: i64,
    pub m12: i64,
    pub m13: i64,
    pub m20: i64,
    pub m21: i64,
    pub m22: i64,
    pub m23: i64,
    pub m30: i64,
    pub m31: i64,
    pub m32: i64,
    pub m33: i64,
}

/// The identity transform: ones on the diagonal, zeroes elsewhere.
pub open spec fn spec_identity() -> Transform {
    Transform {
        m00: 1, m01: 0, m02: 0, m03: 0,
        m10: 0, m11: 1, m12: 0, m13: 0,
        m20: 0, m21: 0, m22: 1, m23: 0,
        m30: 0, m31: 0, m32: 0, m33: 1,
    }
}

/// One entry of a matrix product: the dot product of a row of the left factor
/// with a column of the right factor, with wrapping arithmetic.
pub open spec fn spec_dot(
    a0: i64, b0: i64,
    a1: i64, b1: i64,
    a2: i64, b2: i64,
    a3: i64, b3: i64,
) -> i64 {
    a0.wrapping_mul(b0).wrapping_add(a1.wrapping_mul(b1)).wrapping_add(
        a2.wrapping_mul(b2),
    ).wrapping_add(a3.wrapping_mul(b3))
}

/// The matrix product `a * b`: composing `b` in the coordinate space that `a`
/// establishes.
pub open spec fn spec_compose(a: Transform, b: Transform) -> Transform {
    Transform {
        m00: spec_dot(a.m00, b.m00, a.m01, b.m10, a.m02, b.m20, a.m03, b.m30),
        m01: spec_dot(a.m00, b.m01, a.m01, b.m11, a.m02, b.m21, a.m03, b.m31),
        m02: spec_dot(a.m00, b.m02, a.m01, b.m12, a.m02, b.m22, a.m03, b.m32),
        m03: spec_dot(a.m00, b.m03, a.m01, b.m13, a.m02, b.m23, a.m03, b.m33),
        m10: spec_dot(a.m10, b.m00, a.m11, b.m10, a.m12, b.m20, a.m13, b.m30),
        m11: spec_dot(a.m10, b.m01, a.m11, b.m11, a.m12, b.m21, a.m13, b.m31),
        m12: spec_dot(a.m10, b.m02, a.m11, b.m12, a.m12, b.m22, a.m13, b.m32),
        m13: spec_dot(a.m10, b.m03, a.m11, b.m13, a.m12, b.m23, a.m13, b.m33),
        m20: spec_dot(a.m20, b.m00, a.m21, b.m10, a.m22, b.m20, a.m23, b.m30),
        m21: spec_dot(a.m20, b.m01, a.m21, b.m11, a.m22, b.m21, a.m23, b.m31),
        m22: spec_dot(a.m20, b.m02, a.m21, b.m12, a.m22, b.m22, a.m23, b.m32),
        m23: spec_dot(a.m20, b.m03, a.m21, b.m13, a.m22, b.m23, a.m23, b.m33),
        m30: spec_dot(a.m30, b.m00, a.m31, b.m10, a.m32, b.m20, a.m33, b.m30),
        m31: spec_dot(a.m30, b.m01, a.m31, b.m11, a.m32, b.m21, a.m33, b.m31),
        m32: spec_dot(a.m30, b.m02, a.m31, b.m12, a.m32, b.m22, a.m33, b.m32),
        m33: spec_dot(a.m30, b.m03, a.m31, b.m13, a.m32, b.m23, a.m33, b.m33),
    }
}

/// Dot product of one row with one column, wrapping on overflow.
fn dot(a0: i64, b0: i64, a1: i64, b1: i64, a2: i64, b2: i64, a3: i64, b3: i64) -> (r: i64)
    ensures
        r == spec_dot(a0, b0, a1, b1, a2, b2, a3, b3),
{
    a0.wrapping_mul(b0).wrapping_add(a1.wrapping_mul(b1)).wrapping_add(
        a2.wrapping_mul(b2),
    ).wrapping_add(a3.wrapping_mul(b3))
}

impl Transform {
    /// The identity transform.
    pub fn new_identity() -> (r: Transform)
        ensures
            r == spec_identity(),
    {
        Transform {
            m00: 1, m01: 0, m02: 0, m03: 0,
            m10: 0, m11: 1, m12: 0, m13: 0,
            m20: 0, m21: 0, m22: 1, m23: 0,
            m30: 0, m31: 0, m32: 0, m33: 1,
        }
    }

    /// The matrix product `self * other`.
    pub fn compose(&self, other: &Transform) -> (r: Transform)
        ensures
            r == spec_compose(*self, *other),
    {
        let a = self;
        let b = other;
        Transform {
            m00: dot(a.m00, b.m00, a.m01, b.m10, a.m02, b.m20, a.m03, b.m30),
            m01: dot(a.m00, b.m01, a.m01, b.m11, a.m02, b.m21, a.m03, b.m31),
            m02: dot(a.m00, b.m02, a.m01, b.m12, a.m02, b.m22, a.m03, b.m32),
            m03: dot(a.m00, b.m03, a.m01, b.m13, a.m02, b.m23, a.m03, b.m33),
            m10: dot(a.m10, b.m00, a.m11, b.m10, a.m12, b.m20, a.m13, b.m30),
            m11: dot(a.m10, b.m01, a.m11, b.m11, a.m12, b.m21, a.m13, b.m31),
            m12: dot(a.m10, b.m02, a.m11, b.m12, a.m12, b.m22, a.m13, b.m32),
            m13: dot(a.m10, b.m03, a.m11, b.m13, a.m12, b.m23, a.m13, b.m33),
            m20: dot(a.m20, b.m00, a.m21, b.m10, a.m22, b.m20, a.m23, b.m30),
            m21: dot(a.m20, b.m01, a.m21, b.m11, a.m22, b.m21, a.m23, b.m31),
            m22: dot(a.m20, b.m02, a.m21, b.m12, a.m22, b.m22, a.m23, b.m32),
            m23: dot(a.m20, b.m03, a.m21, b.m13, a.m22, b.m23, a.m23, b.m33),
            m30: dot(a.m30, b.m00, a.m31, b.m10, a.m32, b.m20, a.m33, b.m30),
            m31: dot(a.m30, b.m01, a.m31, b.m11, a.m32, b.m21, a.m33, b.m31),
            m32: dot(a.m30, b.m02, a.m31, b.m12, a.m32, b.m22, a.m33, b.m32),
            m33: dot(a.m30, b.m03, a.m31, b.m13, a.m32, b.m23, a.m33, b.m33),
        }
    }

    /// Replace `self` by the product `self * m`: apply `m` in the coordinate
    /// space that `self` establishes.
    pub fn pre_concat(&mut self, m: &Transform)
        ensures
            *final(self) == spec_compose(*old(self), *m),
    {
        let c = self.compose(m);
        *self = c;
    }
}

/// Wrapping multiplication by one and zero, and wrapping addition of zero,
/// behave as their exact counterparts.
proof fn lemma_wrapping_unit(x: i64)
    ensures
        (1i64).wrapping_mul(x) == x,
        x.wrapping_mul(1i64) == x,
        (0i64).wrapping_mul(x) == 0i64,
        x.wrapping_mul(0i64) == 0i64,
        x.wrapping_add(0i64) == x,
        (0i64).wrapping_add(x) == x,
{
}

/// The identity is a left and right unit of composition: pushing a transform
/// onto a stack whose top is the identity does not distort it, and composing
/// the identity onto any transform leaves it unchanged.
pub proof fn lemma_compose_identity(t: Transform)
    ensures
        spec_compose(spec_identity(), t) == t,
        spec_compose(t, spec_identity()) == t,
{
    lemma_wrapping_unit(t.m00);
    lemma_wrapping_unit(t.m01);
    lemma_wrapping_unit(t.m02);
    lemma_wrapping_unit(t.m03);
    lemma_wrapping_unit(t.m10);
    lemma_wrapping_unit(t.m11);
    lemma_wrapping_unit(t.m12);
    lemma_wrapping_unit(t.m13);
    lemma_wrapping_unit(t.m20);
    lemma_wrapping_unit(t.m21);
    lemma_wrapping_unit(t.m22);
    lemma_wrapping_unit(t.m23);
    lemma_wrapping_unit(t.m30);
    lemma_wrapping_unit(t.m31);
    lemma_wrapping_unit(t.m32);
    lemma_wrapping_unit(t.m33);
}

/// The top of a transform stack, or the identity when the stack is empty.
pub open spec fn top_or_identity(ts: Seq<Transform>) -> Transform {
    if ts.len() > 0 {
        ts.last()
    } else {
        spec_identity()
    }
}

/// The composition of a sequence of transforms applied in push order, starting
/// from the identity: `identity * ts[0] * ts[1] * ... * ts[n-1]`.
pub open spec fn composed_of(ts: Seq<Transform>) -> Transform
    decreases ts.len(),
{
    if ts.len() == 0 {
        spec_identity()
    } else {
        spec_compose(composed_of(ts.drop_last()), ts.last())
    }
}

/// The stack contents that result from pushing `ts` in order onto a freshly
/// seeded stack (a single identity entry): every push composes onto the
/// current top and pushes the result.
pub open spec fn stack_after_pushes(ts: Seq<Transform>) -> Seq<Transform>
    decreases ts.len(),
{
    if ts.len() == 0 {
        seq![spec_identity()]
    } else {
        let prev = stack_after_pushes(ts.drop_last());
        prev.push(spec_compose(top_or_identity(prev), ts.last()))
    }
}

/// One pop of a transform stack: removes the top entry, unless only the base
/// frame remains, which is never removed.
pub open spec fn popped(s: Seq<Transform>) -> Seq<Transform> {
    if s.len() > 1 {
        s.drop_last()
    } else {
        s
    }
}

/// `n` pops in a row.
pub open spec fn popped_n(s: Seq<Transform>, n: nat) -> Seq<Transform>
    decreases n,
{
    if n == 0 {
        s
    } else {
        popped_n(popped(s), (n - 1) as nat)
    }
}

/// After pushing the transforms `ts` in order onto a freshly seeded stack, the
/// stack holds one entry per push above the base frame, the base frame is
/// still the identity, and the top is the product of all pushed transforms
/// onto the identity, in push order.
pub proof fn lemma_stack_composition(ts: Seq<Transform>)
    ensures
        stack_after_pushes(ts).len() == ts.len() + 1,
        stack_after_pushes(ts).first() == spec_identity(),
        stack_after_pushes(ts).last() == composed_of(ts),
    decreases ts.len(),
{
    if ts.len() > 0 {
        lemma_stack_composition(ts.drop_last());
    }
}

/// Popping as many times as was pushed returns a freshly seeded stack to
/// exactly its base frame: depth one, holding the identity.
pub proof fn lemma_pops_return_to_base(ts: Seq<Transform>)
    ensures
        popped_n(stack_after_pushes(ts), ts.len()) =~= seq![spec_identity()],
    decreases ts.len(),
{
    if ts.len() > 0 {
        let prev = stack_after_pushes(ts.drop_last());
        let whole = stack_after_pushes(ts);
        lemma_stack_composition(ts.drop_last());
        assert(whole.drop_last() =~= prev);
        lemma_popped_n_unwind(whole, ts.len());
        lemma_pops_return_to_base(ts.drop_last());
    }
}

/// Peeling one pop off the front of a run of `n` pops, for a stack deep
/// enough that the first pop removes an entry.
proof fn lemma_popped_n_unwind(s: Seq<Transform>, n: nat)
    requires
        n >= 1,
        s.len() > 1,
    ensures
        popped_n(s, n) == popped_n(s.drop_last(), (n - 1) as nat),
{
}

} // verus!
