use vstd::prelude::*;

verus! {

/// The native type tag of 32-bit integer data.
pub const INTEGER: u32 = 2;

/// A host element type that the native array calls accept, with the tag
/// the library uses for it.
pub trait CgnsDataType {
    spec fn tag() -> u32;

    fn data_type() -> (r: u32)
        ensures
            r == Self::tag(),
    ;
}

impl CgnsDataType for i32 {
    open spec fn tag() -> u32 {
        INTEGER
    }

    fn data_type() -> (r: u32) {
        INTEGER
    }
}

/// The product of the declared dimensions.
pub open spec fn dims_product(dims: Seq<i32>) -> int
    decreases dims.len(),
{
    if dims.len() == 0 {
        1
    } else {
        dims_product(dims.drop_last()) * dims.last()
    }
}

/// An array declares at least one dimension, and its dimensions multiply
/// out to the number of elements supplied.
pub open spec fn dims_fit(dims: Seq<i32>, len: int) -> bool {
    dims.len() > 0 && dims_product(dims) == len
}

pub open spec fn abs(x: int) -> int {
    if x < 0 {
        -x
    } else {
        x
    }
}

proof fn lemma_abs_mul(a: int, b: int)
    ensures
        abs(a * b) == abs(a) * abs(b),
{
    if a < 0 && b < 0 {
        assert(a * b == (-a) * (-b)) by (nonlinear_arith);
    } else if a < 0 {
        assert(-(a * b) == (-a) * b) by (nonlinear_arith);
        assert(a * b <= 0) by (nonlinear_arith) requires a < 0, b >= 0;
    } else if b < 0 {
        assert(-(a * b) == a * (-b)) by (nonlinear_arith);
        assert(a * b <= 0) by (nonlinear_arith) requires a >= 0, b < 0;
    } else {
        assert(a * b >= 0) by (nonlinear_arith) requires a >= 0, b >= 0;
    }
}

/// With no zero among the dimensions, the magnitude of the product never
/// shrinks as further dimensions are taken in.
proof fn lemma_product_grows(dims: Seq<i32>, k: int)
    requires
        0 <= k <= dims.len(),
        forall|j: int| 0 <= j < dims.len() ==> dims[j] != 0,
    ensures
        abs(dims_product(dims.subrange(0, k))) <= abs(dims_product(dims)),
    decreases dims.len() - k,
{
    if k < dims.len() {
        lemma_product_grows(dims, k + 1);
        let p = dims_product(dims.subrange(0, k));
        let d = dims[k] as int;
        assert(dims.subrange(0, k + 1).drop_last() =~= dims.subrange(0, k));
        lemma_abs_mul(p, d);
        assert(abs(p) <= abs(p) * abs(d)) by (nonlinear_arith)
            requires
                abs(d) >= 1,
                abs(p) >= 0,
        ;
    } else {
        assert(dims.subrange(0, k) =~= dims);
    }
}

proof fn lemma_product_zero(dims: Seq<i32>, z: int)
    requires
        0 <= z < dims.len(),
        dims[z] == 0,
    ensures
        dims_product(dims) == 0,
    decreases dims.len(),
{
    if z < dims.len() - 1 {
        lemma_product_zero(dims.drop_last(), z);
    }
    let p = dims_product(dims.drop_last());
    if z == dims.len() - 1 {
        assert(p * 0 == 0) by (nonlinear_arith);
    } else {
        assert(0 * (dims.last() as int) == 0) by (nonlinear_arith);
    }
}

/// Whether `dims` describes an array of `data_len` elements: at least one
/// dimension, and their product equal to the length. A native array write
/// is only ever issued when this holds; a mismatch is the caller's error.
pub fn dimensions_match(dims: &[i32], data_len: usize) -> (r: bool)
    ensures
        r == dims_fit(dims@, data_len as int),
{
    if dims.len() == 0 {
        return false;
    }
    let mut z: usize = 0;
    while z < dims.len()
        invariant
            z <= dims@.len(),
            forall|j: int| 0 <= j < z ==> dims@[j] != 0,
        decreases dims@.len() - z,
    {
        if dims[z] == 0 {
            proof {
                lemma_product_zero(dims@, z as int);
            }
            return data_len == 0;
        }
        z = z + 1;
    }
    if data_len == 0 {
        proof {
            lemma_product_grows(dims@, 0);
            assert(dims@.subrange(0, 0) =~= Seq::<i32>::empty());
        }
        return false;
    }
    let len: i128 = data_len as i128;
    let mut acc: i128 = 1;
    let mut i: usize = 0;
    assert(dims@.subrange(0, 0) =~= Seq::<i32>::empty());
    while i < dims.len()
        invariant
            i <= dims@.len(),
            forall|j: int| 0 <= j < dims@.len() ==> dims@[j] != 0,
            acc as int == dims_product(dims@.subrange(0, i as int)),
            abs(acc as int) <= len,
            len == data_len as int,
            0 <= len < 0x1_0000_0000_0000_0000,
        decreases dims@.len() - i,
    {
        let d = dims[i] as i128;
        assert(dims@.subrange(0, i + 1 as int).drop_last() =~= dims@.subrange(0, i as int));
        proof {
            lemma_abs_mul(acc as int, d as int);
            assert(abs(acc as int) * abs(d as int) < 0x1_0000_0000_0000_0000 * 0x1_0000_0000)
                by (nonlinear_arith)
                requires
                    abs(acc as int) < 0x1_0000_0000_0000_0000,
                    abs(d as int) <= 0x8000_0000,
            ;
        }
        acc = acc * d;
        i = i + 1;
        if acc > len || acc < -len {
            proof {
                lemma_product_grows(dims@, i as int);
            }
            return false;
        }
    }
    assert(dims@.subrange(0, i as int) =~= dims@);
    acc == len
}

/// The native library's navigation cursor, held for the lifetime of this
/// value: `guard` is the exclusive claim on the library that keeps every
/// other call out until the context is dropped. Not `Clone`, so it cannot
/// outlive the sequence of calls it protects.
pub struct GotoContext<G> {
    guard: G,
}

impl<G> GotoContext<G> {
    /// Wraps the claim under which the cursor was set.
    pub fn new(guard: G) -> (r: Self)
        ensures
            r.guard() == guard,
    {
        GotoContext { guard }
    }

    pub closed spec fn guard(&self) -> G {
        self.guard
    }

    /// Whether an array write with these dimensions and this many elements
    /// may be issued at the current location.
    pub fn array_fits(&self, dims: &[i32], data_len: usize) -> (r: bool)
        ensures
            r == dims_fit(dims@, data_len as int),
    {
        dimensions_match(dims, data_len)
    }
}

} // verus!
