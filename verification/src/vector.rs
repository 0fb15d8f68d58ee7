//! The `Vector` value type and its operations.
//!
//! A `Vector` is an ordered, fixed-length sequence of double-precision
//! components, each carried as its IEEE-754 bit pattern (`u64`).  The size
//! is fixed at construction: the cached `size` field always equals the
//! length of the component storage, which is the type's well-formedness
//! invariant.  All size decisions, error conditions and index plumbing are
//! verified here; the scalar arithmetic itself is handed in by callers as
//! strategy functions where the encoding alone cannot decide it.

use vstd::prelude::*;

use crate::mathicore;

verus! {

/// Bit pattern of positive zero.
pub const ZERO_BITS: u64 = 0x0;

/// Bit pattern of positive one.
pub const ONE_BITS: u64 = 0x3FF0_0000_0000_0000;

/// The math vector: an owned sequence of double-precision bit patterns
/// together with its cached length.
#[derive(Debug)]
pub struct Vector {
    components: Vec<u64>,
    size: usize,
}

impl View for Vector {
    type V = Seq<u64>;

    closed spec fn view(&self) -> Seq<u64> {
        self.components@
    }
}

impl Vector {
    /// The invariant every constructed `Vector` satisfies: the cached size
    /// equals the length of the component storage.
    pub closed spec fn wf(&self) -> bool {
        self.size == self@.len()
    }
}

/// The contents of a vector of length `size` filled with `value`.
pub open spec fn full_spec(size: nat, value: u64) -> Seq<u64> {
    Seq::new(size, |i: int| value)
}

/// Creates a new `Vector` by copying the initializing components `arr`.
pub fn new(arr: &[u64]) -> (v: Vector)
    ensures
        v.wf(),
        v@ == arr@,
{
    let mut components: Vec<u64> = Vec::new();
    let mut i: usize = 0;
    while i < arr.len()
        invariant
            i <= arr@.len(),
            components@ == arr@.subrange(0, i as int),
        decreases arr@.len() - i,
    {
        components.push(arr[i]);
        i += 1;
    }
    proof {
        assert(components@ =~= arr@);
    }
    let size = components.len();
    Vector { components, size }
}

/// Creates a new `Vector` that takes ownership of the components `arr`.
pub fn from(arr: Vec<u64>) -> (v: Vector)
    ensures
        v.wf(),
        v@ == arr@,
{
    let size = arr.len();
    Vector { components: arr, size }
}

/// Creates a vector of length `size` filled with the given `value`.
pub fn full(size: usize, value: u64) -> (v: Vector)
    ensures
        v.wf(),
        v@ == full_spec(size as nat, value),
{
    let mut components: Vec<u64> = Vec::new();
    let mut i: usize = 0;
    while i < size
        invariant
            i <= size,
            components@.len() == i,
            forall|k: int| 0 <= k < i ==> components@[k] == value,
        decreases size - i,
    {
        components.push(value);
        i += 1;
    }
    proof {
        assert(components@ =~= full_spec(size as nat, value));
    }
    let size = components.len();
    Vector { components, size }
}

/// Creates a zero-filled vector of length `size`.
pub fn zeros(size: usize) -> (v: Vector)
    ensures
        v.wf(),
        v@ == full_spec(size as nat, ZERO_BITS),
{
    full(size, ZERO_BITS)
}

/// Creates a one-filled vector of length `size`.
pub fn ones(size: usize) -> (v: Vector)
    ensures
        v.wf(),
        v@ == full_spec(size as nat, ONE_BITS),
{
    full(size, ONE_BITS)
}

/// Creates a `value`-filled vector with the same size as the given `v`.
pub fn full_like(v: &Vector, value: u64) -> (r: Vector)
    requires
        v.wf(),
    ensures
        r.wf(),
        r@ == full_spec(v@.len(), value),
{
    full(v.size(), value)
}

/// Creates a zero-filled vector with the same size as the given `v`.
pub fn zeros_like(v: &Vector) -> (r: Vector)
    requires
        v.wf(),
    ensures
        r.wf(),
        r@ == full_spec(v@.len(), ZERO_BITS),
{
    full_like(v, ZERO_BITS)
}

/// Creates a one-filled vector with the same size as the given `v`.
pub fn ones_like(v: &Vector) -> (r: Vector)
    requires
        v.wf(),
    ensures
        r.wf(),
        r@ == full_spec(v@.len(), ONE_BITS),
{
    full_like(v, ONE_BITS)
}

/// The ways an operation on vectors can fail.
#[derive(Clone, Copy, Debug, PartialEq, Eq, Structural)]
pub enum VectorError {
    /// Operand sizes differ where they must be equal.
    SizeMismatch,
    /// An operand of the cross product is not exactly three-dimensional.
    DimensionError,
    /// An index reaches past the last component.
    IndexOutOfRange,
}

impl VectorError {
    /// A descriptive message for the failure.
    pub fn message(&self) -> (r: &'static str) {
        match self {
            VectorError::SizeMismatch => "vector sizes must be equal to each other",
            VectorError::DimensionError => "invalid vector sizes for the cross product",
            VectorError::IndexOutOfRange => "vector index is out of range",
        }
    }
}

/// Whether every element of `flags` is true.
pub open spec fn all_spec(flags: Seq<bool>) -> bool {
    forall|i: int| 0 <= i < flags.len() ==> flags[i]
}

/// Whether at least one element of `flags` is true.
pub open spec fn any_spec(flags: Seq<bool>) -> bool {
    exists|i: int| 0 <= i < flags.len() && flags[i]
}

/// Returns `true` if all elements of `flags` are true; vacuously true on an
/// empty sequence.
pub fn all(flags: &[bool]) -> (r: bool)
    ensures
        r == all_spec(flags@),
{
    let mut i: usize = 0;
    while i < flags.len()
        invariant
            i <= flags@.len(),
            forall|k: int| 0 <= k < i ==> flags@[k],
        decreases flags@.len() - i,
    {
        if !flags[i] {
            return false;
        }
        i += 1;
    }
    true
}

/// Returns `true` if at least one element of `flags` is true; false on an
/// empty sequence.
pub fn any(flags: &[bool]) -> (r: bool)
    ensures
        r == any_spec(flags@),
{
    let mut i: usize = 0;
    while i < flags.len()
        invariant
            i <= flags@.len(),
            forall|k: int| 0 <= k < i ==> !flags@[k],
        decreases flags@.len() - i,
    {
        if flags[i] {
            return true;
        }
        i += 1;
    }
    false
}

/// Applies `condition` to corresponding components of two equal-size
/// vectors and collects the answers.
fn zip_flags<F: Fn(u64, u64) -> bool>(v1: &Vector, v2: &Vector, condition: &F) -> (r: Vec<bool>)
    requires
        v1.wf(),
        v2.wf(),
        v1@.len() == v2@.len(),
        forall|x: u64, y: u64| call_requires(condition, (x, y)),
    ensures
        r@.len() == v1@.len(),
        forall|i: int|
            0 <= i < v1@.len() ==> call_ensures(condition, (v1@[i], v2@[i]), #[trigger] r@[i]),
{
    let mut r: Vec<bool> = Vec::new();
    let mut i: usize = 0;
    while i < v1.components.len()
        invariant
            v1.wf(),
            v2.wf(),
            v1@.len() == v2@.len(),
            forall|x: u64, y: u64| call_requires(condition, (x, y)),
            i <= v1@.len(),
            r@.len() == i,
            forall|k: int|
                0 <= k < i ==> call_ensures(condition, (v1@[k], v2@[k]), #[trigger] r@[k]),
        decreases v1@.len() - i,
    {
        r.push(condition(v1.components[i], v2.components[i]));
        i += 1;
    }
    r
}

/// Compares two vectors pairwise under the `condition` strategy.  Returns
/// one answer per pair of corresponding components, and fails fast with
/// `SizeMismatch` when the sizes differ.
pub fn compare<F: Fn(u64, u64) -> bool>(v1: &Vector, v2: &Vector, condition: F) -> (r: Result<
    Vec<bool>,
    VectorError,
>)
    requires
        v1.wf(),
        v2.wf(),
        forall|x: u64, y: u64| call_requires(condition, (x, y)),
    ensures
        r is Ok <==> v1@.len() == v2@.len(),
        r matches Err(e) ==> e == VectorError::SizeMismatch,
        r matches Ok(flags) ==> {
            &&& flags@.len() == v1@.len()
            &&& forall|i: int|
                0 <= i < v1@.len() ==> call_ensures(condition, (v1@[i], v2@[i]), #[trigger] flags@[i])
        },
{
    if v1.size() != v2.size() {
        return Err(VectorError::SizeMismatch);
    }
    Ok(zip_flags(v1, v2, &condition))
}

/// Compares every component of `v` with the scalar `val` under the
/// `condition` strategy, one answer per component.
pub fn compare_scalar<F: Fn(u64, u64) -> bool>(v: &Vector, val: u64, condition: F) -> (r: Vec<
    bool,
>)
    requires
        v.wf(),
        forall|x: u64, y: u64| call_requires(condition, (x, y)),
    ensures
        r@.len() == v@.len(),
        forall|i: int| 0 <= i < v@.len() ==> call_ensures(condition, (v@[i], val), #[trigger] r@[i]),
{
    let mut r: Vec<bool> = Vec::new();
    let mut i: usize = 0;
    while i < v.components.len()
        invariant
            v.wf(),
            forall|x: u64, y: u64| call_requires(condition, (x, y)),
            i <= v@.len(),
            r@.len() == i,
            forall|k: int| 0 <= k < i ==> call_ensures(condition, (v@[k], val), #[trigger] r@[k]),
        decreases v@.len() - i,
    {
        r.push(condition(v.components[i], val));
        i += 1;
    }
    r
}

/// Whether every component of `s` is closer to zero than the default
/// tolerance.
pub open spec fn is_zero_spec(s: Seq<u64>) -> bool {
    forall|i: int| 0 <= i < s.len() ==> mathicore::is_close_to_zero(s[i])
}

/// Checks whether `v` is a null vector: every component closer to zero than
/// the default tolerance.
pub fn is_zero(v: &Vector) -> (r: bool)
    requires
        v.wf(),
    ensures
        r == is_zero_spec(v@),
{
    let close = |a: u64, _val: u64| -> (c: bool)
        ensures
            c == mathicore::is_close_to_zero(a),
        { mathicore::close_to_zero(a) };
    let flags = compare_scalar(v, ZERO_BITS, close);
    let r = all(flags.as_slice());
    proof {
        if r {
            assert forall|i: int| 0 <= i < v@.len() implies mathicore::is_close_to_zero(
                v@[i],
            ) by {
                assert(flags@[i]);
            }
        } else {
            let i = choose|i: int| 0 <= i < flags@.len() && !flags@[i];
            assert(!mathicore::is_close_to_zero(v@[i]));
        }
    }
    r
}

/// What equality under a comparison strategy promises of its answer: a true
/// answer vouches for equal sizes and for every pair of corresponding
/// components, a false answer points at unequal sizes or at some rejected
/// pair.
pub open spec fn pairwise_post<F: Fn(u64, u64) -> bool>(
    a: Seq<u64>,
    b: Seq<u64>,
    condition: F,
    r: bool,
) -> bool {
    &&& r ==> a.len() == b.len() && (forall|i: int|
        0 <= i < a.len() ==> call_ensures(condition, (a[i], b[i]), true))
    &&& !r ==> a.len() != b.len() || (exists|i: int|
        0 <= i < a.len() && call_ensures(condition, (a[i], b[i]), false))
}

/// Whether `t` records a run of the dot product of `a` and `b` under the
/// `mul_add` strategy ending in `r`: it starts at zero, and every step feeds
/// the accumulator so far together with one pair of corresponding components
/// back into the strategy.
pub open spec fn dot_trace_ok<F: Fn(u64, u64, u64) -> u64>(
    a: Seq<u64>,
    b: Seq<u64>,
    mul_add: F,
    t: Seq<u64>,
    r: u64,
) -> bool {
    &&& t.len() == a.len() + 1
    &&& t[0] == ZERO_BITS
    &&& forall|i: int|
        1 <= i <= a.len() ==> call_ensures(mul_add, (t[i - 1], a[i - 1], b[i - 1]), #[trigger] t[i])
    &&& r == t[a.len() as int]
}

/// Whether `r` is an outcome of the dot product of `a` and `b` under the
/// `mul_add` strategy: some accumulation run over the pairs, seeded with
/// zero, ends in `r`.
pub open spec fn dot_post<F: Fn(u64, u64, u64) -> u64>(
    a: Seq<u64>,
    b: Seq<u64>,
    mul_add: F,
    r: u64,
) -> bool {
    exists|t: Seq<u64>| dot_trace_ok(a, b, mul_add, t, r)
}

/// Calculates the dot product of two vectors.  The scalar step is the
/// `mul_add` strategy: handed the accumulator so far and one pair of
/// corresponding components, it returns the next accumulator, so that over
/// doubles `mul_add(acc, x, y)` stands for `acc + x * y`.  Starting from
/// zero, the pairs are folded in index order.  Fails with `SizeMismatch`
/// exactly when the sizes differ; an empty pair of vectors yields the seed,
/// zero.
pub fn dot<F: Fn(u64, u64, u64) -> u64>(a: &Vector, b: &Vector, mul_add: F) -> (r: Result<
    u64,
    VectorError,
>)
    requires
        a.wf(),
        b.wf(),
        forall|acc: u64, x: u64, y: u64| call_requires(mul_add, (acc, x, y)),
    ensures
        r is Ok <==> a@.len() == b@.len(),
        r matches Err(e) ==> e == VectorError::SizeMismatch,
        r matches Ok(s) ==> dot_post(a@, b@, mul_add, s),
{
    if a.size() != b.size() {
        return Err(VectorError::SizeMismatch);
    }
    let mut acc: u64 = ZERO_BITS;
    let ghost mut trace: Seq<u64> = seq![ZERO_BITS];
    let mut i: usize = 0;
    while i < a.components.len()
        invariant
            a.wf(),
            b.wf(),
            a@.len() == b@.len(),
            forall|acc: u64, x: u64, y: u64| call_requires(mul_add, (acc, x, y)),
            i <= a@.len(),
            trace.len() == i + 1,
            trace[0] == ZERO_BITS,
            acc == trace[i as int],
            forall|k: int|
                1 <= k <= i ==> call_ensures(mul_add, (trace[k - 1], a@[k - 1], b@[k - 1]), #[trigger] trace[k]),
        decreases a@.len() - i,
    {
        acc = mul_add(acc, a.components[i], b.components[i]);
        proof {
            trace = trace.push(acc);
        }
        i += 1;
    }
    proof {
        assert(dot_trace_ok(a@, b@, mul_add, trace, acc));
    }
    Ok(acc)
}

/// Calculates the cross product of two three-dimensional vectors.  The
/// scalar step is the `diff_prod` strategy: `diff_prod(x, y, z, w)` stands
/// for `x * y - z * w` over doubles.  Fails with `DimensionError` exactly
/// when either operand is not three-dimensional.
pub fn cross<F: Fn(u64, u64, u64, u64) -> u64>(a: &Vector, b: &Vector, diff_prod: F) -> (r: Result<
    Vector,
    VectorError,
>)
    requires
        a.wf(),
        b.wf(),
        forall|x: u64, y: u64, z: u64, w: u64| call_requires(diff_prod, (x, y, z, w)),
    ensures
        r is Ok <==> a@.len() == 3 && b@.len() == 3,
        r matches Err(e) ==> e == VectorError::DimensionError,
        r matches Ok(v) ==> {
            &&& v.wf()
            &&& v@.len() == 3
            &&& call_ensures(diff_prod, (a@[1], b@[2], a@[2], b@[1]), v@[0])
            &&& call_ensures(diff_prod, (a@[2], b@[0], a@[0], b@[2]), v@[1])
            &&& call_ensures(diff_prod, (a@[0], b@[1], a@[1], b@[0]), v@[2])
        },
{
    if a.size() != 3 || b.size() != 3 {
        return Err(VectorError::DimensionError);
    }
    let s1 = diff_prod(a.components[1], b.components[2], a.components[2], b.components[1]);
    let s2 = diff_prod(a.components[2], b.components[0], a.components[0], b.components[2]);
    let s3 = diff_prod(a.components[0], b.components[1], a.components[1], b.components[0]);
    let mut components: Vec<u64> = Vec::new();
    components.push(s1);
    components.push(s2);
    components.push(s3);
    Ok(Vector { components, size: 3 })
}

/// What the element-wise sum promises of its output under the `sum`
/// strategy: one answer of `sum` per pair of corresponding components.
pub open spec fn sum_post<F: Fn(u64, u64) -> u64>(
    a: Seq<u64>,
    b: Seq<u64>,
    sum: F,
    out: Seq<u64>,
) -> bool {
    &&& out.len() == a.len()
    &&& forall|i: int| 0 <= i < a.len() ==> call_ensures(sum, (a[i], b[i]), #[trigger] out[i])
}

impl Vector {
    /// Returns the vector size.
    pub fn size(&self) -> (r: usize)
        requires
            self.wf(),
        ensures
            r == self@.len(),
    {
        self.size
    }

    /// Returns a borrow of the component storage.
    pub fn components(&self) -> (r: &Vec<u64>)
        ensures
            r@ == self@,
    {
        &self.components
    }

    /// Returns the `i`-th component, or `IndexOutOfRange` when `i` reaches
    /// past the last one.
    pub fn index(&self, i: usize) -> (r: Result<u64, VectorError>)
        requires
            self.wf(),
        ensures
            r is Ok <==> i < self@.len(),
            r matches Ok(c) ==> c == self@[i as int],
            r matches Err(e) ==> e == VectorError::IndexOutOfRange,
    {
        if i < self.components.len() {
            Ok(self.components[i])
        } else {
            Err(VectorError::IndexOutOfRange)
        }
    }

    /// Whether the two vectors are equal under the `condition` strategy:
    /// equal sizes, and every pair of corresponding components accepted.
    /// With a tolerance strategy over doubles this is the library's notion
    /// of vector equality; being tolerance-based it is not transitive, and
    /// callers must not chain it.
    pub fn eq<F: Fn(u64, u64) -> bool>(&self, other: &Vector, condition: F) -> (r: bool)
        requires
            self.wf(),
            other.wf(),
            forall|x: u64, y: u64| call_requires(condition, (x, y)),
        ensures
            pairwise_post(self@, other@, condition, r),
    {
        if self.size() != other.size() {
            return false;
        }
        let flags = zip_flags(self, other, &condition);
        let r = all(flags.as_slice());
        proof {
            if r {
                assert forall|i: int| 0 <= i < self@.len() implies call_ensures(
                    condition,
                    (self@[i], other@[i]),
                    true,
                ) by {
                    assert(flags@[i]);
                }
            } else {
                let i = choose|i: int| 0 <= i < flags@.len() && !flags@[i];
                assert(call_ensures(condition, (self@[i], other@[i]), false));
            }
        }
        r
    }

    /// The element-wise sum of two vectors as a new vector.  The scalar step
    /// is the `sum` strategy, which over doubles stands for `x + y`.  Fails
    /// with `SizeMismatch` exactly when the sizes differ.
    pub fn add<F: Fn(u64, u64) -> u64>(&self, other: &Vector, sum: F) -> (r: Result<
        Vector,
        VectorError,
    >)
        requires
            self.wf(),
            other.wf(),
            forall|x: u64, y: u64| call_requires(sum, (x, y)),
        ensures
            r is Ok <==> self@.len() == other@.len(),
            r matches Err(e) ==> e == VectorError::SizeMismatch,
            r matches Ok(v) ==> v.wf() && sum_post(self@, other@, sum, v@),
    {
        if self.size() != other.size() {
            return Err(VectorError::SizeMismatch);
        }
        let mut components: Vec<u64> = Vec::new();
        let mut i: usize = 0;
        while i < self.components.len()
            invariant
                self.wf(),
                other.wf(),
                self@.len() == other@.len(),
                forall|x: u64, y: u64| call_requires(sum, (x, y)),
                i <= self@.len(),
                components@.len() == i,
                forall|k: int|
                    0 <= k < i ==> call_ensures(sum, (self@[k], other@[k]), #[trigger] components@[k]),
            decreases self@.len() - i,
        {
            components.push(sum(self.components[i], other.components[i]));
            i += 1;
        }
        let size = components.len();
        Ok(Vector { components, size })
    }

    /// The element-wise sum in place: replaces the components of `self` with
    /// the sum.  Fails with `SizeMismatch` exactly when the sizes differ,
    /// leaving `self` unchanged.
    pub fn add_assign<F: Fn(u64, u64) -> u64>(&mut self, other: &Vector, sum: F) -> (r: Result<
        (),
        VectorError,
    >)
        requires
            old(self).wf(),
            other.wf(),
            forall|x: u64, y: u64| call_requires(sum, (x, y)),
        ensures
            r is Ok <==> old(self)@.len() == other@.len(),
            r matches Err(e) ==> e == VectorError::SizeMismatch && *final(self) == *old(self),
            r is Ok ==> final(self).wf() && sum_post(old(self)@, other@, sum, final(self)@),
    {
        match self.add(other, sum) {
            Ok(v) => {
                *self = v;
                Ok(())
            },
            Err(e) => Err(e),
        }
    }

    /// See [`is_zero`](is_zero).
    pub fn is_zero(&self) -> (r: bool)
        requires
            self.wf(),
        ensures
            r == is_zero_spec(self@),
    {
        is_zero(self)
    }

    /// See [`compare`](compare).
    pub fn compare<F: Fn(u64, u64) -> bool>(&self, other: &Vector, condition: F) -> (r: Result<
        Vec<bool>,
        VectorError,
    >)
        requires
            self.wf(),
            other.wf(),
            forall|x: u64, y: u64| call_requires(condition, (x, y)),
        ensures
            r is Ok <==> self@.len() == other@.len(),
            r matches Err(e) ==> e == VectorError::SizeMismatch,
            r matches Ok(flags) ==> {
                &&& flags@.len() == self@.len()
                &&& forall|i: int|
                    0 <= i < self@.len() ==> call_ensures(
                        condition,
                        (self@[i], other@[i]),
                        #[trigger] flags@[i],
                    )
            },
    {
        compare(self, other, condition)
    }

    /// See [`compare_scalar`](compare_scalar).
    pub fn compare_scalar<F: Fn(u64, u64) -> bool>(&self, val: u64, condition: F) -> (r: Vec<
        bool,
    >)
        requires
            self.wf(),
            forall|x: u64, y: u64| call_requires(condition, (x, y)),
        ensures
            r@.len() == self@.len(),
            forall|i: int|
                0 <= i < self@.len() ==> call_ensures(condition, (self@[i], val), #[trigger] r@[i]),
    {
        compare_scalar(self, val, condition)
    }

    /// See [`dot`](dot).
    pub fn dot<F: Fn(u64, u64, u64) -> u64>(&self, other: &Vector, mul_add: F) -> (r: Result<
        u64,
        VectorError,
    >)
        requires
            self.wf(),
            other.wf(),
            forall|acc: u64, x: u64, y: u64| call_requires(mul_add, (acc, x, y)),
        ensures
            r is Ok <==> self@.len() == other@.len(),
            r matches Err(e) ==> e == VectorError::SizeMismatch,
            r matches Ok(s) ==> dot_post(self@, other@, mul_add, s),
    {
        dot(self, other, mul_add)
    }

    /// See [`cross`](cross).
    pub fn cross<F: Fn(u64, u64, u64, u64) -> u64>(&self, other: &Vector, diff_prod: F) -> (r:
        Result<Vector, VectorError>)
        requires
            self.wf(),
            other.wf(),
            forall|x: u64, y: u64, z: u64, w: u64| call_requires(diff_prod, (x, y, z, w)),
        ensures
            r is Ok <==> self@.len() == 3 && other@.len() == 3,
            r matches Err(e) ==> e == VectorError::DimensionError,
            r matches Ok(v) ==> {
                &&& v.wf()
                &&& v@.len() == 3
                &&& call_ensures(diff_prod, (self@[1], other@[2], self@[2], other@[1]), v@[0])
                &&& call_ensures(diff_prod, (self@[2], other@[0], self@[0], other@[2]), v@[1])
                &&& call_ensures(diff_prod, (self@[0], other@[1], self@[1], other@[0]), v@[2])
            },
    {
        cross(self, other, diff_prod)
    }
}

/// Law: the boolean reductions are vacuous on an empty sequence — `all` of
/// nothing holds, `any` of nothing does not.
pub proof fn lemma_vacuous_reductions()
    ensures
        all_spec(Seq::<bool>::empty()),
        !any_spec(Seq::<bool>::empty()),
{
}

/// Law: equality under a comparison strategy is reflexive whenever the
/// strategy never rejects a pair of identical scalars.  The tolerance test
/// over doubles rejects such a pair only where the component is no number
/// at all, so vectors built from the same ordinary construction data are
/// equal to themselves.
pub proof fn lemma_eq_reflexive<F: Fn(u64, u64) -> bool>(
    a: Seq<u64>,
    b: Seq<u64>,
    condition: F,
    r: bool,
)
    requires
        a == b,
        pairwise_post(a, b, condition, r),
        forall|x: u64| !call_ensures(condition, (x, x), false),
    ensures
        r,
{
    if !r {
        let i = choose|i: int| 0 <= i < a.len() && call_ensures(condition, (a[i], b[i]), false);
        assert(!call_ensures(condition, (a[i], a[i]), false));
    }
}

/// Law: equality under a comparison strategy is symmetric whenever the
/// strategy is deterministic and indifferent to the order of its two
/// scalars, as a tolerance test over an absolute difference is.
pub proof fn lemma_eq_symmetric<F: Fn(u64, u64) -> bool>(
    a: Seq<u64>,
    b: Seq<u64>,
    condition: F,
    r1: bool,
    r2: bool,
)
    requires
        pairwise_post(a, b, condition, r1),
        pairwise_post(b, a, condition, r2),
        forall|x: u64, y: u64, c: bool|
            call_ensures(condition, (x, y), c) ==> call_ensures(condition, (y, x), c),
        forall|x: u64, y: u64, c1: bool, c2: bool|
            call_ensures(condition, (x, y), c1) && call_ensures(condition, (x, y), c2) ==> c1
                == c2,
    ensures
        r1 == r2,
{
    if r1 && !r2 {
        let i = choose|i: int| 0 <= i < b.len() && call_ensures(condition, (b[i], a[i]), false);
        assert(call_ensures(condition, (a[i], b[i]), true));
        assert(call_ensures(condition, (a[i], b[i]), false));
    }
    if !r1 && r2 {
        let i = choose|i: int| 0 <= i < a.len() && call_ensures(condition, (a[i], b[i]), false);
        assert(call_ensures(condition, (b[i], a[i]), true));
        assert(call_ensures(condition, (b[i], a[i]), false));
    }
}

/// Two accumulation runs of the same dot product under a deterministic
/// strategy agree step by step.
proof fn lemma_dot_traces_agree<F: Fn(u64, u64, u64) -> u64>(
    a: Seq<u64>,
    b: Seq<u64>,
    mul_add: F,
    t1: Seq<u64>,
    t2: Seq<u64>,
    r1: u64,
    r2: u64,
    i: int,
)
    requires
        dot_trace_ok(a, b, mul_add, t1, r1),
        dot_trace_ok(a, b, mul_add, t2, r2),
        forall|acc: u64, x: u64, y: u64, s1: u64, s2: u64|
            call_ensures(mul_add, (acc, x, y), s1) && call_ensures(mul_add, (acc, x, y), s2)
                ==> s1 == s2,
        0 <= i <= a.len(),
    ensures
        t1[i] == t2[i],
    decreases i,
{
    if i > 0 {
        lemma_dot_traces_agree(a, b, mul_add, t1, t2, r1, r2, i - 1);
        assert(call_ensures(mul_add, (t1[i - 1], a[i - 1], b[i - 1]), t1[i]));
        assert(call_ensures(mul_add, (t2[i - 1], a[i - 1], b[i - 1]), t2[i]));
    }
}

/// Law: the dot product is deterministic whenever its scalar strategy is:
/// any two outcomes over the same operands are the same scalar.
pub proof fn lemma_dot_deterministic<F: Fn(u64, u64, u64) -> u64>(
    a: Seq<u64>,
    b: Seq<u64>,
    mul_add: F,
    r1: u64,
    r2: u64,
)
    requires
        dot_post(a, b, mul_add, r1),
        dot_post(a, b, mul_add, r2),
        forall|acc: u64, x: u64, y: u64, s1: u64, s2: u64|
            call_ensures(mul_add, (acc, x, y), s1) && call_ensures(mul_add, (acc, x, y), s2)
                ==> s1 == s2,
    ensures
        r1 == r2,
{
    let t1 = choose|t: Seq<u64>| dot_trace_ok(a, b, mul_add, t, r1);
    let t2 = choose|t: Seq<u64>| dot_trace_ok(a, b, mul_add, t, r2);
    lemma_dot_traces_agree(a, b, mul_add, t1, t2, r1, r2, a.len() as int);
}

/// Law: a zero-filled vector of any size is a null vector — every component
/// is the zero pattern, whose magnitude sits below the default tolerance.
pub proof fn lemma_zeros_is_null(n: nat)
    ensures
        is_zero_spec(full_spec(n, ZERO_BITS)),
{
    assert(0u64 & 0x7FFF_FFFF_FFFF_FFFFu64 == 0u64) by (bit_vector);
}

/// Law: under a deterministic sum strategy, any two outcomes of the
/// element-wise sum of the same operands have the same components — in
/// particular, adding in place leaves the very components that the pure
/// addition returns.
pub proof fn lemma_add_deterministic<F: Fn(u64, u64) -> u64>(
    a: Seq<u64>,
    b: Seq<u64>,
    sum: F,
    out1: Seq<u64>,
    out2: Seq<u64>,
)
    requires
        sum_post(a, b, sum, out1),
        sum_post(a, b, sum, out2),
        forall|x: u64, y: u64, r1: u64, r2: u64|
            call_ensures(sum, (x, y), r1) && call_ensures(sum, (x, y), r2) ==> r1 == r2,
    ensures
        out1 =~= out2,
{
    assert forall|i: int| 0 <= i < a.len() implies out1[i] == out2[i] by {
        assert(call_ensures(sum, (a[i], b[i]), out1[i]));
        assert(call_ensures(sum, (a[i], b[i]), out2[i]));
    }
}

} // verus!
