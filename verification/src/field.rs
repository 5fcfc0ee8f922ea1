use vstd::prelude::*;

verus! {

/// The prime modulus of the field.  Every element is kept as its canonical
/// representative below this bound.
pub const MODULUS: u64 = 0xffff_ffff_0000_0001;

/// Addition in the field, over canonical representatives.
pub open spec fn add_mod(a: int, b: int) -> int {
    (a + b) % (MODULUS as int)
}

/// Multiplication in the field, over canonical representatives.
pub open spec fn mul_mod(a: int, b: int) -> int {
    (a * b) % (MODULUS as int)
}

/// An element of the prime field.
#[derive(Clone, Copy, Debug, PartialEq, Eq, Structural)]
pub struct Felt {
    pub v: u64,
}

impl Felt {
    /// Canonical form: the representative lies below the modulus.
    pub open spec fn valid(self) -> bool {
        self.v < MODULUS
    }

    /// Builds a field element by reducing an arbitrary machine integer.
    pub fn from_u64(x: u64) -> (r: Felt)
        ensures
            r.valid(),
            r.v as int == x as int % (MODULUS as int),
    {
        Felt { v: x % MODULUS }
    }

    /// Field addition of canonical representatives.
    pub fn add(self, other: Felt) -> (r: Felt)
        requires
            self.valid(),
            other.valid(),
        ensures
            r.valid(),
            r.v as int == add_mod(self.v as int, other.v as int),
    {
        let s: u128 = self.v as u128 + other.v as u128;
        let red: u128 = s % (MODULUS as u128);
        Felt { v: red as u64 }
    }

    /// Field multiplication of canonical representatives.
    pub fn mul(self, other: Felt) -> (r: Felt)
        requires
            self.valid(),
            other.valid(),
        ensures
            r.valid(),
            r.v as int == mul_mod(self.v as int, other.v as int),
    {
        proof {
            assert((self.v as int) * (other.v as int) <= (u64::MAX as int) * (u64::MAX as int))
                by (nonlinear_arith)
                requires
                    self.v as int <= u64::MAX as int,
                    other.v as int <= u64::MAX as int,
                    0 <= self.v as int,
                    0 <= other.v as int,
            ;
        }
        let p: u128 = self.v as u128 * other.v as u128;
        let red: u128 = p % (MODULUS as u128);
        Felt { v: red as u64 }
    }
}

/// A witness value: either a concrete field element, or still unknown,
/// so that a circuit can be laid out before all of its inputs exist.
#[derive(Clone, Copy, Debug, PartialEq, Eq, Structural)]
pub enum Value {
    Unknown,
    Known(Felt),
}

impl Value {
    /// A known value must be in canonical form.
    pub open spec fn valid(self) -> bool {
        self matches Value::Known(f) ==> f.valid()
    }

    /// The sum of two witness values; unknown as soon as either side is.
    pub open spec fn spec_add(self, other: Value) -> Value {
        match (self, other) {
            (Value::Known(a), Value::Known(b)) => Value::Known(
                Felt { v: add_mod(a.v as int, b.v as int) as u64 },
            ),
            _ => Value::Unknown,
        }
    }

    /// The product of two witness values; unknown as soon as either side is.
    pub open spec fn spec_mul(self, other: Value) -> Value {
        match (self, other) {
            (Value::Known(a), Value::Known(b)) => Value::Known(
                Felt { v: mul_mod(a.v as int, b.v as int) as u64 },
            ),
            _ => Value::Unknown,
        }
    }

    /// Adds two witness values, short-circuiting on unknown.
    pub fn add(self, other: Value) -> (r: Value)
        requires
            self.valid(),
            other.valid(),
        ensures
            r == self.spec_add(other),
            r.valid(),
    {
        match (self, other) {
            (Value::Known(a), Value::Known(b)) => Value::Known(a.add(b)),
            _ => Value::Unknown,
        }
    }

    /// Multiplies two witness values, short-circuiting on unknown.
    pub fn mul(self, other: Value) -> (r: Value)
        requires
            self.valid(),
            other.valid(),
        ensures
            r == self.spec_mul(other),
            r.valid(),
    {
        match (self, other) {
            (Value::Known(a), Value::Known(b)) => Value::Known(a.mul(b)),
            _ => Value::Unknown,
        }
    }
}

} // verus!
