use vstd::prelude::*;

verus! {

/// The bit pattern of the real number zero.
pub const ZERO_BITS: u64 = 0;

/// A complex scalar, carried as the bit patterns of its two components.
/// The verified layer only moves such values around; reading them as
/// numbers is the code generator's business alone.
#[derive(Clone, Copy, PartialEq, Eq, Structural, Debug)]
pub struct ComplexBits {
    pub re: u64,
    pub im: u64,
}

/// A real scalar, carried as a bit pattern.
#[derive(Clone, Copy, PartialEq, Eq, Structural, Debug)]
pub struct RealBits(pub u64);

/// A coefficient that can present itself as a complex scalar. The real
/// case embeds with a zero imaginary part; the complex case is the
/// identity. This is the single point that lets one translation serve
/// both coefficient domains.
pub trait Number {
    spec fn as_complex_spec(&self) -> ComplexBits;

    fn as_complex(&self) -> (r: ComplexBits)
        ensures
            r == self.as_complex_spec();
}

impl Number for ComplexBits {
    open spec fn as_complex_spec(&self) -> ComplexBits {
        *self
    }

    fn as_complex(&self) -> (r: ComplexBits) {
        *self
    }
}

impl Number for RealBits {
    open spec fn as_complex_spec(&self) -> ComplexBits {
        ComplexBits { re: self.0, im: ZERO_BITS }
    }

    fn as_complex(&self) -> (r: ComplexBits) {
        ComplexBits { re: self.0, im: ZERO_BITS }
    }
}

/// Normalizes a constant pool to the common complex representation, in
/// order.
pub fn as_complex_pool<T: Number>(v: &Vec<T>) -> (r: Vec<ComplexBits>)
    ensures
        r@.len() == v@.len(),
        forall|i: int| 0 <= i < v@.len() ==> r@[i] == v@[i].as_complex_spec(),
{
    let mut r: Vec<ComplexBits> = Vec::new();
    let mut k: usize = 0;
    while k < v.len()
        invariant
            k <= v@.len(),
            r@.len() == k,
            forall|i: int| 0 <= i < k ==> r@[i] == v@[i].as_complex_spec(),
        decreases v@.len() - k,
    {
        r.push(v[k].as_complex());
        k = k + 1;
    }
    r
}

/// A pool of real coefficients embeds into the complex representation
/// with every imaginary part equal to the zero bit pattern.
pub proof fn lemma_real_pool_has_zero_imaginary(v: Seq<RealBits>)
    ensures
        forall|i: int| 0 <= i < v.len() ==> (#[trigger] v[i].as_complex_spec()).im == ZERO_BITS,
        forall|i: int| 0 <= i < v.len() ==> (#[trigger] v[i].as_complex_spec()).re == v[i].0,
{
}

} // verus!
