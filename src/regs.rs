use vstd::prelude::*;

verus! {

/// A pair of 8-bit registers (high, low) that can also be used as one 16-bit register.
#[derive(Debug, Clone, Copy, PartialEq, Eq, Structural)]
pub struct RegPair(pub u8, pub u8);

/// The 16-bit value of a pair: the high byte shifted left by 8, or-ed with the low byte.
pub open spec fn pair_value(hi: u8, lo: u8) -> u16 {
    ((hi as u16) << 8) | (lo as u16)
}

/// The high byte of a 16-bit value.
pub open spec fn high_byte(val: u16) -> u8 {
    #[verifier::truncate] ((val >> 8) as u8)
}

/// The low byte of a 16-bit value.
pub open spec fn low_byte(val: u16) -> u8 {
    #[verifier::truncate] ((val & 0xff) as u8)
}

/// Splitting a value into its two bytes and joining them again gives the value back.
pub proof fn lemma_split_join(val: u16)
    ensures
        pair_value(high_byte(val), low_byte(val)) == val,
{
    assert((((#[verifier::truncate] ((val >> 8) as u8)) as u16) << 8) | ((#[verifier::truncate] ((val & 0xff) as u8)) as u16) == val) by (bit_vector);
}

/// Joining two bytes and splitting the result gives the two bytes back.
pub proof fn lemma_join_split(hi: u8, lo: u8)
    ensures
        high_byte(pair_value(hi, lo)) == hi,
        low_byte(pair_value(hi, lo)) == lo,
{
    assert(#[verifier::truncate] ((((((hi as u16) << 8) | (lo as u16)) >> 8) as u8)) == hi) by (bit_vector);
    assert(#[verifier::truncate] ((((((hi as u16) << 8) | (lo as u16)) & 0xff) as u8)) == lo) by (bit_vector);
}

impl RegPair {
    /// The combined 16-bit value.
    pub open spec fn value(self) -> u16 {
        pair_value(self.0, self.1)
    }

    /// The pair holding `val`.
    pub open spec fn of(val: u16) -> RegPair {
        RegPair(high_byte(val), low_byte(val))
    }

    /// Stores `val`, its high byte in the first register and its low byte in the second.
    pub fn set(&mut self, val: u16)
        ensures
            *final(self) == RegPair::of(val),
            final(self).value() == val,
    {
        self.0 = #[verifier::truncate] ((val >> 8) as u8);
        self.1 = #[verifier::truncate] ((val & 0xff) as u8);
        proof {
            lemma_split_join(val);
        }
    }

    /// The combined 16-bit value.
    pub fn get(&self) -> (r: u16)
        ensures
            r == self.value(),
    {
        ((self.0 as u16) << 8) | (self.1 as u16)
    }
}

impl From<u16> for RegPair {
    fn from(val: u16) -> (r: RegPair) {
        RegPair(#[verifier::truncate] ((val >> 8) as u8), #[verifier::truncate] ((val & 0xff) as u8))
    }
}

impl vstd::std_specs::convert::FromSpecImpl<u16> for RegPair {
    open spec fn obeys_from_spec() -> bool {
        true
    }

    open spec fn from_spec(v: u16) -> RegPair {
        RegPair::of(v)
    }
}

} // verus!
