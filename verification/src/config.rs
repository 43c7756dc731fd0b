//! Opacity values and the configuration snapshot built from them.
//!
//! An opacity is a binary64 number between zero and one. It is kept as the
//! bit pattern of that number, so that it can be compared, stored and handed
//! on exactly; the range test is a statement about the sign, exponent and
//! fraction fields of the pattern.

use vstd::prelude::*;

verus! {

/// Bit pattern of the binary64 number `1.0`.
pub const ONE_BITS: u64 = 0x3ff0_0000_0000_0000;

/// Bit pattern of the binary64 number `-0.0`.
pub const NEGATIVE_ZERO_BITS: u64 = 0x8000_0000_0000_0000;

/// Sign bit of a binary64 bit pattern: set for negative numbers.
pub open spec fn sign_of(bits: u64) -> bool {
    bits >> 63 == 1
}

/// Biased exponent field of a binary64 bit pattern.
pub open spec fn exponent_of(bits: u64) -> u64 {
    (bits >> 52) & 0x7ff
}

/// Fraction field of a binary64 bit pattern.
pub open spec fn fraction_of(bits: u64) -> u64 {
    bits & 0x000f_ffff_ffff_ffff
}

/// The pattern encodes a zero, of either sign.
pub open spec fn is_zero(bits: u64) -> bool {
    exponent_of(bits) == 0 && fraction_of(bits) == 0
}

/// The pattern encodes a finite magnitude of at most one: the exponent is
/// below the bias, or it equals the bias and the fraction is empty.
pub open spec fn magnitude_at_most_one(bits: u64) -> bool {
    exponent_of(bits) < 1023 || (exponent_of(bits) == 1023 && fraction_of(bits) == 0)
}

/// The binary64 number with this bit pattern lies in the closed interval from
/// zero to one. Negative zero compares equal to zero and is inside; every
/// other negative number, the infinities and the NaNs are outside.
pub open spec fn in_unit_interval(bits: u64) -> bool {
    is_zero(bits) || (!sign_of(bits) && magnitude_at_most_one(bits))
}

/// The range test on bit patterns is two integer comparisons.
pub proof fn lemma_unit_interval_as_integers(bits: u64)
    ensures
        in_unit_interval(bits) <==> (bits <= ONE_BITS || bits == NEGATIVE_ZERO_BITS),
{
    assert(in_unit_interval(bits) <==> (bits <= 0x3ff0_0000_0000_0000u64 || bits
        == 0x8000_0000_0000_0000u64)) by (bit_vector);
}

/// A visibility coefficient between zero and one, kept as the bit pattern of
/// a binary64 number.
#[derive(Clone, Copy, Debug, PartialEq, Eq, Structural)]
pub struct Opacity {
    bits: u64,
}

impl Opacity {
    /// The bit pattern held.
    pub closed spec fn spec_bits(self) -> u64 {
        self.bits
    }

    /// The range invariant: the number held lies between zero and one.
    pub open spec fn wf(self) -> bool {
        in_unit_interval(self.spec_bits())
    }

    /// Accepts `bits` exactly when the number it encodes is within range;
    /// nothing is clamped.
    pub fn new(bits: u64) -> (r: Option<Opacity>)
        ensures
            r is Some <==> in_unit_interval(bits),
            r matches Some(o) ==> o.spec_bits() == bits && o.wf(),
    {
        proof {
            lemma_unit_interval_as_integers(bits);
        }
        if bits <= ONE_BITS || bits == NEGATIVE_ZERO_BITS {
            Some(Opacity { bits })
        } else {
            None
        }
    }

    /// Full visibility, the number one.
    pub closed spec fn spec_max() -> Opacity {
        Opacity { bits: ONE_BITS }
    }

    /// Full visibility, the number one.
    pub fn max() -> (r: Opacity)
        ensures
            r == Self::spec_max(),
            r.spec_bits() == ONE_BITS,
            r.wf(),
    {
        proof {
            lemma_unit_interval_as_integers(ONE_BITS);
        }
        Opacity { bits: ONE_BITS }
    }

    /// The bit pattern held. It is always that of a number within range.
    pub fn bits(&self) -> (r: u64)
        ensures
            r == self.spec_bits(),
            in_unit_interval(r),
    {
        proof {
            use_type_invariant(self);
        }
        self.bits
    }

    #[verifier::type_invariant]
    spec fn in_range(self) -> bool {
        in_unit_interval(self.bits)
    }
}

/// Full visibility is the number one, which is within range: building an
/// opacity from it always succeeds.
pub proof fn lemma_max_is_accepted()
    ensures
        in_unit_interval(ONE_BITS),
        Opacity::spec_max().spec_bits() == ONE_BITS,
        Opacity::spec_max().wf(),
{
    lemma_unit_interval_as_integers(ONE_BITS);
}

/// Two opacities are the same value exactly when their bit patterns agree.
pub proof fn lemma_opacity_determined_by_bits(a: Opacity, b: Opacity)
    ensures
        a == b <==> a.spec_bits() == b.spec_bits(),
{
}

/// A configuration as of its most recent successful load.
#[derive(Clone, Copy, Debug, PartialEq, Eq, Structural)]
pub struct Config {
    /// Whether dimming is active when the daemon starts.
    pub transparency_at_start: bool,
    /// The opacity given to unfocused windows.
    pub opacity: Opacity,
}

} // verus!
