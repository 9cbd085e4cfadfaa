//! A type safe wrapper around PortAudio's stream callback flags.
//!
//! Flag bit constants for the status flags passed to the stream's callback function.

use vstd::prelude::*;

verus! {

/// No flags.
pub const PA_NO_FLAG: u64 = 0x0000_0000;
/// Input data is all silence, or zero samples were inserted to compensate for an input underflow.
pub const PA_INPUT_UNDERFLOW: u64 = 0x0000_0001;
/// Input data prior to the first sample of the buffer (or to some samples in it) was discarded.
pub const PA_INPUT_OVERFLOW: u64 = 0x0000_0002;
/// Output data (or a gap) was inserted, possibly because the stream callback is using too much CPU time.
pub const PA_OUTPUT_UNDERFLOW: u64 = 0x0000_0004;
/// Output data will be discarded because no room is available.
pub const PA_OUTPUT_OVERFLOW: u64 = 0x0000_0008;
/// Some of all of the output data will be used to prime the stream, input data may be zero.
pub const PA_PRIMING_OUTPUT: u64 = 0x0000_0010;
/// The union of all defined flags.
pub const PA_ALL_CALLBACK_FLAGS: u64 = 0x0000_001F;

/// `bits` sets no bit outside the defined flags.
pub open spec fn is_callback_flag_bits(bits: u64) -> bool {
    bits & PA_ALL_CALLBACK_FLAGS == bits
}

/// Facts about the flag bits: every defined flag is valid, and the set operations keep bits
/// valid.
proof fn lemma_flag_bits()
    by (bit_vector)
    ensures
        PA_NO_FLAG & PA_ALL_CALLBACK_FLAGS == PA_NO_FLAG,
        PA_INPUT_UNDERFLOW & PA_ALL_CALLBACK_FLAGS == PA_INPUT_UNDERFLOW,
        PA_INPUT_OVERFLOW & PA_ALL_CALLBACK_FLAGS == PA_INPUT_OVERFLOW,
        PA_OUTPUT_UNDERFLOW & PA_ALL_CALLBACK_FLAGS == PA_OUTPUT_UNDERFLOW,
        PA_OUTPUT_OVERFLOW & PA_ALL_CALLBACK_FLAGS == PA_OUTPUT_OVERFLOW,
        PA_PRIMING_OUTPUT & PA_ALL_CALLBACK_FLAGS == PA_PRIMING_OUTPUT,
        0u64 & PA_ALL_CALLBACK_FLAGS == 0u64,
        PA_ALL_CALLBACK_FLAGS & PA_ALL_CALLBACK_FLAGS == PA_ALL_CALLBACK_FLAGS,
        forall|a: u64, b: u64|
            #![trigger a | b]
            (a & PA_ALL_CALLBACK_FLAGS == a && b & PA_ALL_CALLBACK_FLAGS == b) ==> (a | b) & PA_ALL_CALLBACK_FLAGS == (a | b),
        forall|a: u64, b: u64|
            #![trigger a & !b]
            a & PA_ALL_CALLBACK_FLAGS == a ==> (a & !b) & PA_ALL_CALLBACK_FLAGS == (a & !b),
        forall|b: u64| #![trigger b & PA_ALL_CALLBACK_FLAGS] (b & PA_ALL_CALLBACK_FLAGS) & PA_ALL_CALLBACK_FLAGS == b & PA_ALL_CALLBACK_FLAGS,
        forall|a: u64, b: u64| #![trigger a | b] (a | b) & b == b && (a | b) & a == a,
{
}

/// The union of two sets of flags contains both of them: after `insert(other)`, a set
/// `contains(other)` and every flag it contained before.
pub proof fn lemma_union_contains(a: u64, b: u64)
    ensures
        (a | b) & b == b,
        (a | b) & a == a,
{
    lemma_flag_bits();
    assert((a | b) & b == b && (a | b) & a == a);
}

/// The text a set of flags is displayed as: the quoted name of the flag whose bits it has
/// exactly, or the quoted `<Unknown StreamCallbackFlags>`.
pub open spec fn display_text_of(bits: u64) -> Seq<char> {
    if bits == PA_NO_FLAG {
        "\"NO_FLAG\""@
    } else if bits == PA_INPUT_UNDERFLOW {
        "\"INPUT_UNDERFLOW\""@
    } else if bits == PA_INPUT_OVERFLOW {
        "\"INPUT_OVERFLOW\""@
    } else if bits == PA_OUTPUT_UNDERFLOW {
        "\"OUTPUT_UNDERFLOW\""@
    } else if bits == PA_OUTPUT_OVERFLOW {
        "\"OUTPUT_OVERFLOW\""@
    } else if bits == PA_PRIMING_OUTPUT {
        "\"PRIMING_INPUT\""@
    } else {
        "\"<Unknown StreamCallbackFlags>\""@
    }
}

/// A set of flags.
#[derive(Copy, Clone, PartialEq, Eq, Hash, Debug, Structural)]
pub struct CallbackFlags {
    bits: u64,
}

impl View for CallbackFlags {
    type V = u64;

    /// The raw bits of the set.
    closed spec fn view(&self) -> u64 {
        self.bits
    }
}

impl CallbackFlags {
    /// Only defined flags are ever set.
    #[verifier::type_invariant]
    closed spec fn inv(self) -> bool {
        is_callback_flag_bits(self.bits)
    }

    /// Two sets of flags with the same bits are the same set.
    pub proof fn lemma_view_injective(self, other: Self)
        requires
            self@ == other@,
        ensures
            self == other,
    {
    }

    /// The set with exactly the bits `bits`.
    fn from_valid_bits(bits: u64) -> (r: Self)
        requires
            is_callback_flag_bits(bits),
        ensures
            r@ == bits,
    {
        CallbackFlags { bits }
    }

    /// The empty set of flags.
    pub fn empty() -> (r: Self)
        ensures
            r@ == 0,
    {
        proof {
            lemma_flag_bits();
        }
        Self::from_valid_bits(0)
    }

    /// The set of all defined flags.
    pub fn all() -> (r: Self)
        ensures
            r@ == PA_ALL_CALLBACK_FLAGS,
    {
        proof {
            lemma_flag_bits();
        }
        Self::from_valid_bits(PA_ALL_CALLBACK_FLAGS)
    }

    /// No flags.
    pub fn no_flag() -> (r: Self)
        ensures
            r@ == PA_NO_FLAG,
    {
        proof {
            lemma_flag_bits();
        }
        Self::from_valid_bits(PA_NO_FLAG)
    }

    /// Input data is all silence, or zero samples were inserted to compensate for an input underflow.
    pub fn input_underflow() -> (r: Self)
        ensures
            r@ == PA_INPUT_UNDERFLOW,
    {
        proof {
            lemma_flag_bits();
        }
        Self::from_valid_bits(PA_INPUT_UNDERFLOW)
    }

    /// Input data prior to the first sample of the buffer (or to some samples in it) was discarded.
    pub fn input_overflow() -> (r: Self)
        ensures
            r@ == PA_INPUT_OVERFLOW,
    {
        proof {
            lemma_flag_bits();
        }
        Self::from_valid_bits(PA_INPUT_OVERFLOW)
    }

    /// Output data (or a gap) was inserted, possibly because the stream callback is using too much CPU time.
    pub fn output_underflow() -> (r: Self)
        ensures
            r@ == PA_OUTPUT_UNDERFLOW,
    {
        proof {
            lemma_flag_bits();
        }
        Self::from_valid_bits(PA_OUTPUT_UNDERFLOW)
    }

    /// Output data will be discarded because no room is available.
    pub fn output_overflow() -> (r: Self)
        ensures
            r@ == PA_OUTPUT_OVERFLOW,
    {
        proof {
            lemma_flag_bits();
        }
        Self::from_valid_bits(PA_OUTPUT_OVERFLOW)
    }

    /// Some of all of the output data will be used to prime the stream, input data may be zero.
    pub fn priming_output() -> (r: Self)
        ensures
            r@ == PA_PRIMING_OUTPUT,
    {
        proof {
            lemma_flag_bits();
        }
        Self::from_valid_bits(PA_PRIMING_OUTPUT)
    }

    /// The raw bits of the set.
    pub fn bits(&self) -> (r: u64)
        ensures
            r == self@,
            is_callback_flag_bits(r),
    {
        proof {
            use_type_invariant(self);
        }
        self.bits
    }

    /// The set with the given bits.
    ///
    /// Returns `None` if `bits` sets any bit that is not a defined flag.
    pub fn from_bits(bits: u64) -> (r: Option<Self>)
        ensures
            r is Some <==> is_callback_flag_bits(bits),
            r matches Some(f) ==> f@ == bits,
    {
        if bits & PA_ALL_CALLBACK_FLAGS == bits {
            Some(Self::from_valid_bits(bits))
        } else {
            None
        }
    }

    /// The set of the defined flags among `bits`; other bits are dropped.
    pub fn from_bits_truncate(bits: u64) -> (r: Self)
        ensures
            r@ == bits & PA_ALL_CALLBACK_FLAGS,
    {
        let b = bits & PA_ALL_CALLBACK_FLAGS;
        proof {
            lemma_flag_bits();
        }
        Self::from_valid_bits(b)
    }

    /// The set with the given bits, or the empty set if `bits` sets any bit that is not a
    /// defined flag.
    pub fn from_bits_or_empty(bits: u64) -> (r: Self)
        ensures
            r@ == (if is_callback_flag_bits(bits) { bits } else { 0 }),
    {
        match Self::from_bits(bits) {
            Some(f) => f,
            None => Self::empty(),
        }
    }

    /// No flag is set.
    pub fn is_empty(&self) -> (r: bool)
        ensures
            r == (self@ == 0),
    {
        self.bits() == 0
    }

    /// Every flag of `other` is set in `self`.
    pub fn contains(&self, other: Self) -> (r: bool)
        ensures
            r == (self@ & other@ == other@),
    {
        self.bits() & other.bits() == other.bits()
    }

    /// The flags set in `self` or in `other`.
    pub fn union(self, other: Self) -> (r: Self)
        ensures
            r@ == self@ | other@,
    {
        let a = self.bits();
        let b = other.bits();
        proof {
            lemma_flag_bits();
        }
        Self::from_valid_bits(a | b)
    }

    /// Set every flag of `other` in `self`.
    pub fn insert(&mut self, other: Self)
        ensures
            final(self)@ == old(self)@ | other@,
    {
        *self = self.union(other);
    }

    /// Clear every flag of `other` in `self`.
    pub fn remove(&mut self, other: Self)
        ensures
            final(self)@ == old(self)@ & !other@,
    {
        let a = self.bits();
        let b = other.bits();
        proof {
            lemma_flag_bits();
        }
        *self = Self::from_valid_bits(a & !b);
    }

    /// The text the set is displayed as: the quoted name of the flag whose bits the set has
    /// exactly, or the quoted `<Unknown StreamCallbackFlags>`.
    pub fn display_text(&self) -> (r: &'static str)
        ensures
            r@ == display_text_of(self@),
    {
        let b = self.bits();
        if b == PA_NO_FLAG {
            "\"NO_FLAG\""
        } else if b == PA_INPUT_UNDERFLOW {
            "\"INPUT_UNDERFLOW\""
        } else if b == PA_INPUT_OVERFLOW {
            "\"INPUT_OVERFLOW\""
        } else if b == PA_OUTPUT_UNDERFLOW {
            "\"OUTPUT_UNDERFLOW\""
        } else if b == PA_OUTPUT_OVERFLOW {
            "\"OUTPUT_OVERFLOW\""
        } else if b == PA_PRIMING_OUTPUT {
            "\"PRIMING_INPUT\""
        } else {
            "\"<Unknown StreamCallbackFlags>\""
        }
    }
}

} // verus!
