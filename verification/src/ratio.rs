//! A completion ratio between nothing and the whole, in ten-thousandths.

use vstd::prelude::*;

verus! {

/// The number of parts that make up the whole: a ratio of `FULL` parts is 1.
pub const FULL: u32 = 10_000;

/// A completion ratio, held as a count of ten-thousandths.
///
/// A value never holds more than [`FULL`] parts. Its view is the count.
#[derive(Clone, Copy, Debug, PartialEq, Eq, Structural)]
pub struct Ratio {
    parts: u32,
}

impl View for Ratio {
    type V = nat;

    closed spec fn view(&self) -> nat {
        self.parts as nat
    }
}

impl Ratio {
    #[verifier::type_invariant]
    spec fn in_range(self) -> bool {
        self.parts <= FULL
    }

    /// The ratio 0: nothing done yet.
    pub fn zero() -> (r: Ratio)
        ensures
            r@ == 0,
    {
        Ratio { parts: 0 }
    }

    /// The ratio 1: everything done.
    pub fn full() -> (r: Ratio)
        ensures
            r@ == FULL,
    {
        Ratio { parts: FULL }
    }

    /// The ratio of `parts` ten-thousandths, where that is at most the whole.
    pub fn new(parts: u32) -> (r: Option<Ratio>)
        ensures
            r is Some <==> parts <= FULL,
            r matches Some(ratio) ==> ratio@ == parts,
    {
        if parts <= FULL {
            Some(Ratio { parts })
        } else {
            None
        }
    }

    /// The ratio of `parts` ten-thousandths, cut down to the whole where
    /// `parts` exceeds it.
    pub fn clamped(parts: u32) -> (r: Ratio)
        ensures
            r@ == clamp_parts(parts as nat),
    {
        if parts <= FULL {
            Ratio { parts }
        } else {
            Ratio { parts: FULL }
        }
    }

    /// The count of ten-thousandths.
    pub fn parts(&self) -> (n: u32)
        ensures
            n == self@,
            n <= FULL,
    {
        proof {
            use_type_invariant(self);
        }
        self.parts
    }

    /// Whole percent reached, rounded down.
    pub fn percent(&self) -> (p: u32)
        ensures
            p == self@ / 100,
            p <= 100,
    {
        proof {
            use_type_invariant(self);
        }
        self.parts / 100
    }

    /// Whether the ratio has reached the whole.
    pub fn is_full(&self) -> (b: bool)
        ensures
            b == (self@ == FULL),
    {
        self.parts == FULL
    }

    /// This ratio raised by `increment` parts and capped at the whole.
    pub fn advanced_by(self, increment: u32) -> (r: Ratio)
        ensures
            r@ == clamp_parts(self@ + increment as nat),
            self@ <= r@ <= FULL,
    {
        proof {
            use_type_invariant(self);
        }
        if increment >= FULL - self.parts {
            Ratio { parts: FULL }
        } else {
            Ratio { parts: self.parts + increment }
        }
    }
}

/// `parts`, or the whole where `parts` exceeds it.
pub open spec fn clamp_parts(parts: nat) -> nat {
    if parts <= FULL {
        parts
    } else {
        FULL as nat
    }
}

} // verus!
