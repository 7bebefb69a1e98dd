use vstd::prelude::*;

verus! {

/// Thread-usage mode requested when the runtime is initialized.
///
/// * `Single`: the process runs one thread.
/// * `Funneled`: the process may run several threads, but only the main thread
///   calls into the runtime.
/// * `Serialized`: several threads may call into the runtime, one at a time; the
///   caller provides the mutual exclusion.
/// * `Multiple`: any thread may call into the runtime at any time (slower).
#[derive(Clone, Copy, Debug, PartialEq, Eq, Structural)]
pub enum MpiThread {
    Single,
    Funneled,
    Serialized,
    Multiple,
}

impl MpiThread {
    /// The code of the mode at the native boundary.
    pub open spec fn code(self) -> i32 {
        match self {
            MpiThread::Single => 0,
            MpiThread::Funneled => 1,
            MpiThread::Serialized => 2,
            MpiThread::Multiple => 3,
        }
    }

    pub fn n(&self) -> (r: i32)
        ensures
            r == self.code(),
    {
        match self {
            MpiThread::Single => 0,
            MpiThread::Funneled => 1,
            MpiThread::Serialized => 2,
            MpiThread::Multiple => 3,
        }
    }
}

/// Element kind of a buffer crossing the native boundary.
#[derive(Clone, Copy, Debug, PartialEq, Eq, Structural)]
pub enum MpiType {
    I32,
    I64,
    U32,
    U64,
    F32,
    F64,
    /// complex pair of 32-bit floats
    C32,
    /// complex pair of 64-bit floats
    C64,
    /// raw byte
    BYT,
}

impl MpiType {
    /// The wire-type tag of the kind.
    pub open spec fn code(self) -> i32 {
        match self {
            MpiType::I32 => 0,
            MpiType::I64 => 1,
            MpiType::U32 => 2,
            MpiType::U64 => 3,
            MpiType::F32 => 4,
            MpiType::F64 => 5,
            MpiType::C32 => 6,
            MpiType::C64 => 7,
            MpiType::BYT => 8,
        }
    }

    pub open spec fn is_integer(self) -> bool {
        match self {
            MpiType::I32 | MpiType::I64 | MpiType::U32 | MpiType::U64 => true,
            _ => false,
        }
    }

    pub open spec fn is_real(self) -> bool {
        match self {
            MpiType::F32 | MpiType::F64 => true,
            _ => false,
        }
    }

    pub open spec fn is_complex(self) -> bool {
        match self {
            MpiType::C32 | MpiType::C64 => true,
            _ => false,
        }
    }

    pub fn n(&self) -> (r: i32)
        ensures
            r == self.code(),
    {
        match self {
            MpiType::I32 => 0,
            MpiType::I64 => 1,
            MpiType::U32 => 2,
            MpiType::U64 => 3,
            MpiType::F32 => 4,
            MpiType::F64 => 5,
            MpiType::C32 => 6,
            MpiType::C64 => 7,
            MpiType::BYT => 8,
        }
    }
}

/// Reduction operator for integer buffers.
#[derive(Clone, Copy, Debug, PartialEq, Eq, Structural)]
pub enum MpiOpInt {
    /// maximum
    Max,
    /// minimum
    Min,
    /// sum
    Sum,
    /// product
    Prod,
    /// logical and
    Land,
    /// logical or
    Lor,
    /// logical xor
    Lxor,
}

/// The truth value of an integer operand: any nonzero value is true.
pub open spec fn truth(a: int) -> bool {
    a != 0
}

/// The integer that stands for a truth value.
pub open spec fn from_truth(b: bool) -> int {
    if b {
        1
    } else {
        0
    }
}

impl MpiOpInt {
    /// The operator tag at the native boundary.
    pub open spec fn code(self) -> i32 {
        match self {
            MpiOpInt::Max => 0,
            MpiOpInt::Min => 1,
            MpiOpInt::Sum => 2,
            MpiOpInt::Prod => 3,
            MpiOpInt::Land => 4,
            MpiOpInt::Lor => 5,
            MpiOpInt::Lxor => 6,
        }
    }

    /// What the operator computes from two operands, over mathematical integers.
    pub open spec fn apply(self, a: int, b: int) -> int {
        match self {
            MpiOpInt::Max => if a >= b { a } else { b },
            MpiOpInt::Min => if a <= b { a } else { b },
            MpiOpInt::Sum => a + b,
            MpiOpInt::Prod => a * b,
            MpiOpInt::Land => from_truth(truth(a) && truth(b)),
            MpiOpInt::Lor => from_truth(truth(a) || truth(b)),
            MpiOpInt::Lxor => from_truth(truth(a) != truth(b)),
        }
    }

    pub fn n(&self) -> (r: i32)
        ensures
            r == self.code(),
    {
        match self {
            MpiOpInt::Max => 0,
            MpiOpInt::Min => 1,
            MpiOpInt::Sum => 2,
            MpiOpInt::Prod => 3,
            MpiOpInt::Land => 4,
            MpiOpInt::Lor => 5,
            MpiOpInt::Lxor => 6,
        }
    }
}

/// The sequential fold of the members' values, in rank order, under `op`.
pub open spec fn fold_int(op: MpiOpInt, s: Seq<int>) -> int
    recommends
        s.len() >= 1,
    decreases s.len(),
{
    if s.len() <= 1 {
        s[0]
    } else {
        op.apply(fold_int(op, s.drop_last()), s.last())
    }
}

/// Every integer operator is commutative and associative.
pub proof fn lemma_int_op_laws(op: MpiOpInt, a: int, b: int, c: int)
    ensures
        op.apply(a, b) == op.apply(b, a),
        op.apply(op.apply(a, b), c) == op.apply(a, op.apply(b, c)),
{
    if op == MpiOpInt::Prod {
        assert(a * b == b * a && (a * b) * c == a * (b * c)) by (nonlinear_arith);
    }
}

/// Taking one value out of the fold and combining it last gives the same result.
proof fn lemma_fold_remove(op: MpiOpInt, s: Seq<int>, j: int)
    requires
        s.len() >= 2,
        0 <= j < s.len(),
    ensures
        fold_int(op, s) == op.apply(fold_int(op, s.remove(j)), s[j]),
    decreases s.len(),
{
    let init = s.drop_last();
    if j == s.len() - 1 {
        assert(s.remove(j) =~= init);
    } else if init.len() == 1 {
        assert(s.remove(j) =~= seq![s.last()]);
        assert(fold_int(op, s.remove(j)) == s[1]);
        assert(fold_int(op, init) == s[0]);
        lemma_int_op_laws(op, s[0], s[1], 0);
    } else {
        lemma_fold_remove(op, init, j);
        let rest = fold_int(op, init.remove(j));
        assert(s.remove(j).drop_last() =~= init.remove(j));
        assert(s.remove(j).last() == s.last());
        assert(init[j] == s[j]);
        assert(fold_int(op, s.remove(j)) == op.apply(rest, s.last()));
        assert(fold_int(op, s) == op.apply(op.apply(rest, s[j]), s.last()));
        lemma_int_op_laws(op, rest, s[j], s.last());
        lemma_int_op_laws(op, rest, s.last(), s[j]);
        lemma_int_op_laws(op, s[j], s.last(), 0);
    }
}

/// A reduction over integers does not depend on the order in which the values
/// are combined: any rearrangement of the members' values folds to the
/// sequential fold in rank order.
pub proof fn lemma_fold_any_order(op: MpiOpInt, s: Seq<int>, t: Seq<int>)
    requires
        s.len() >= 1,
        s.to_multiset() == t.to_multiset(),
    ensures
        fold_int(op, t) == fold_int(op, s),
    decreases s.len(),
{
    broadcast use vstd::seq_lib::group_to_multiset_ensures;

    vstd::seq_lib::to_multiset_len(s);
    vstd::seq_lib::to_multiset_len(t);
    assert(t.len() == s.len());
    let x = s.last();
    assert(s.contains(x)) by {
        assert(s[s.len() - 1] == x);
    }
    assert(t.to_multiset().count(x) > 0);
    assert(t.contains(x));
    let j = choose|j: int| 0 <= j < t.len() && t[j] == x;
    if s.len() == 1 {
        assert(t.remove(j).to_multiset().len() == 0);
        assert(t[0] == x);
    } else {
        let init = s.drop_last();
        assert(s.remove(s.len() - 1) =~= init);
        assert(init.to_multiset() == t.remove(j).to_multiset());
        lemma_fold_any_order(op, init, t.remove(j));
        lemma_fold_remove(op, t, j);
    }
}

/// Reduction operator for real buffers.
#[derive(Clone, Copy, Debug, PartialEq, Eq, Structural)]
pub enum MpiOpReal {
    /// maximum
    Max,
    /// minimum
    Min,
    /// sum
    Sum,
    /// product
    Prod,
}

impl MpiOpReal {
    /// The operator tag at the native boundary.
    pub open spec fn code(self) -> i32 {
        match self {
            MpiOpReal::Max => 0,
            MpiOpReal::Min => 1,
            MpiOpReal::Sum => 2,
            MpiOpReal::Prod => 3,
        }
    }

    pub fn n(&self) -> (r: i32)
        ensures
            r == self.code(),
    {
        match self {
            MpiOpReal::Max => 0,
            MpiOpReal::Min => 1,
            MpiOpReal::Sum => 2,
            MpiOpReal::Prod => 3,
        }
    }
}

/// Reduction operator for complex buffers: complex numbers have no total
/// order, so only sum and product exist.
#[derive(Clone, Copy, Debug, PartialEq, Eq, Structural)]
pub enum MpiOpComplex {
    /// sum
    Sum,
    /// product
    Prod,
}

impl MpiOpComplex {
    /// The operator tag at the native boundary (shared with the other families).
    pub open spec fn code(self) -> i32 {
        match self {
            MpiOpComplex::Sum => 2,
            MpiOpComplex::Prod => 3,
        }
    }

    pub fn n(&self) -> (r: i32)
        ensures
            r == self.code(),
    {
        match self {
            MpiOpComplex::Sum => 2,
            MpiOpComplex::Prod => 3,
        }
    }
}

} // verus!
