//! A type safe wrapper around PortAudio's stream flags.
//!
//! Flags used to control the behaviour of a stream. They are passed as parameters to
//! Stream::open or Stream::open_default. Multiple flags may be used together.

use vstd::prelude::*;

verus! {

/// No flags.
pub const PA_NO_FLAG: u64 = 0x0000_0000;
/// Disable default clipping of out of range samples.
pub const PA_CLIP_OFF: u64 = 0x0000_0001;
/// Disable default dithering.
pub const PA_DITHER_OFF: u64 = 0x0000_0002;
/// Flag requests that where possible a full duplex stream will not discard overflowed input samples without calling the stream callback.
pub const PA_NEVER_DROP_INPUT: u64 = 0x0000_0004;
/// Call the stream callback to fill initial output buffers, rather than the default behavior of priming the buffers with zeros (silence).
pub const PA_PRIME_OUTPUT_BUFFERS_USING_STREAM_CALLBACK: u64 = 0x0000_0008;
/// A mask specifying the platform specific bits.
pub const PA_PLATFORM_SPECIFIC_FLAGS: u64 = 0xFFFF_0000;
/// The union of all defined flags.
pub const PA_ALL_STREAM_FLAGS: u64 = 0xFFFF_000F;

/// `bits` sets no bit outside the defined flags.
pub open spec fn is_stream_flag_bits(bits: u64) -> bool {
    bits & PA_ALL_STREAM_FLAGS == bits
}

/// Facts about the flag bits: every defined flag is valid, and the set operations keep bits
/// valid.
proof fn lemma_flag_bits()
    by (bit_vector)
    ensures
        PA_NO_FLAG & PA_ALL_STREAM_FLAGS == PA_NO_FLAG,
        PA_CLIP_OFF & PA_ALL_STREAM_FLAGS == PA_CLIP_OFF,
        PA_DITHER_OFF & PA_ALL_STREAM_FLAGS == PA_DITHER_OFF,
        PA_NEVER_DROP_INPUT & PA_ALL_STREAM_FLAGS == PA_NEVER_DROP_INPUT,
        PA_PRIME_OUTPUT_BUFFERS_USING_STREAM_CALLBACK & PA_ALL_STREAM_FLAGS == PA_PRIME_OUTPUT_BUFFERS_USING_STREAM_CALLBACK,
        PA_PLATFORM_SPECIFIC_FLAGS & PA_ALL_STREAM_FLAGS == PA_PLATFORM_SPECIFIC_FLAGS,
        0u64 & PA_ALL_STREAM_FLAGS == 0u64,
        PA_ALL_STREAM_FLAGS & PA_ALL_STREAM_FLAGS == PA_ALL_STREAM_FLAGS,
        forall|a: u64, b: u64|
            #![trigger a | b]
            (a & PA_ALL_STREAM_FLAGS == a && b & PA_ALL_STREAM_FLAGS == b) ==> (a | b) & PA_ALL_STREAM_FLAGS == (a | b),
        forall|a: u64, b: u64|
            #![trigger a & !b]
            a & PA_ALL_STREAM_FLAGS == a ==> (a & !b) & PA_ALL_STREAM_FLAGS == (a & !b),
        forall|b: u64| #![trigger b & PA_ALL_STREAM_FLAGS] (b & PA_ALL_STREAM_FLAGS) & PA_ALL_STREAM_FLAGS == b & PA_ALL_STREAM_FLAGS,
        forall|a: u64, b: u64| #![trigger a | b] (a | b) & b == b && (a | b) & a == a,
{
}

/// The union of two sets of flags contains both of them: after `insert(other)`, a set
/// `contains(other)` and every flag it contained before.
pub proof fn lemma_union_contains(a: u64, b: u64)
    ensures
        (a | b) & b == b,
        (a | b) & a == a,
{
    lemma_flag_bits();
    assert((a | b) & b == b && (a | b) & a == a);
}

/// The text a set of flags is displayed as: the quoted name of the flag whose bits it has
/// exactly, or the quoted `<Unknown StreamFlags>`.
pub open spec fn display_text_of(bits: u64) -> Seq<char> {
    if bits == PA_NO_FLAG {
        "\"NO_FLAG\""@
    } else if bits == PA_CLIP_OFF {
        "\"CLIP_OFF\""@
    } else if bits == PA_DITHER_OFF {
        "\"DITHER_OFF\""@
    } else if bits == PA_NEVER_DROP_INPUT {
        "\"NEVER_DROP_INPUT\""@
    } else if bits == PA_PRIME_OUTPUT_BUFFERS_USING_STREAM_CALLBACK {
        "\"PRIME_OUTPUT_BUFFERS_USING_STREAM_CALLBACK\""@
    } else if bits == PA_PLATFORM_SPECIFIC_FLAGS {
        "\"PLATFORM_SPECIFIC_FLAGS\""@
    } else {
        "\"<Unknown StreamFlags>\""@
    }
}

/// A set of flags.
#[derive(Copy, Clone, PartialEq, Eq, Hash, Debug, Structural)]
pub struct Flags {
    bits: u64,
}

impl View for Flags {
    type V = u64;

    /// The raw bits of the set.
    closed spec fn view(&self) -> u64 {
        self.bits
    }
}

impl Flags {
    /// Only defined flags are ever set.
    #[verifier::type_invariant]
    closed spec fn inv(self) -> bool {
        is_stream_flag_bits(self.bits)
    }

    /// Two sets of flags with the same bits are the same set.
    pub proof fn lemma_view_injective(self, other: Self)
        requires
            self@ == other@,
        ensures
            self == other,
    {
    }

    /// The set with exactly the bits `bits`.
    fn from_valid_bits(bits: u64) -> (r: Self)
        requires
            is_stream_flag_bits(bits),
        ensures
            r@ == bits,
    {
        Flags { bits }
    }

    /// The empty set of flags.
    pub fn empty() -> (r: Self)
        ensures
            r@ == 0,
    {
        proof {
            lemma_flag_bits();
        }
        Self::from_valid_bits(0)
    }

    /// The set of all defined flags.
    pub fn all() -> (r: Self)
        ensures
            r@ == PA_ALL_STREAM_FLAGS,
    {
        proof {
            lemma_flag_bits();
        }
        Self::from_valid_bits(PA_ALL_STREAM_FLAGS)
    }

    /// No flags.
    pub fn no_flag() -> (r: Self)
        ensures
            r@ == PA_NO_FLAG,
    {
        proof {
            lemma_flag_bits();
        }
        Self::from_valid_bits(PA_NO_FLAG)
    }

    /// Disable default clipping of out of range samples.
    pub fn clip_off() -> (r: Self)
        ensures
            r@ == PA_CLIP_OFF,
    {
        proof {
            lemma_flag_bits();
        }
        Self::from_valid_bits(PA_CLIP_OFF)
    }

    /// Disable default dithering.
    pub fn dither_off() -> (r: Self)
        ensures
            r@ == PA_DITHER_OFF,
    {
        proof {
            lemma_flag_bits();
        }
        Self::from_valid_bits(PA_DITHER_OFF)
    }

    /// Flag requests that where possible a full duplex stream will not discard overflowed input samples without calling the stream callback.
    pub fn never_drop_input() -> (r: Self)
        ensures
            r@ == PA_NEVER_DROP_INPUT,
    {
        proof {
            lemma_flag_bits();
        }
        Self::from_valid_bits(PA_NEVER_DROP_INPUT)
    }

    /// Call the stream callback to fill initial output buffers, rather than the default behavior of priming the buffers with zeros (silence).
    pub fn prime_output_buffers_using_stream_callback() -> (r: Self)
        ensures
            r@ == PA_PRIME_OUTPUT_BUFFERS_USING_STREAM_CALLBACK,
    {
        proof {
            lemma_flag_bits();
        }
        Self::from_valid_bits(PA_PRIME_OUTPUT_BUFFERS_USING_STREAM_CALLBACK)
    }

    /// A mask specifying the platform specific bits.
    pub fn platform_specific_flags() -> (r: Self)
        ensures
            r@ == PA_PLATFORM_SPECIFIC_FLAGS,
    {
        proof {
            lemma_flag_bits();
        }
        Self::from_valid_bits(PA_PLATFORM_SPECIFIC_FLAGS)
    }

    /// The raw bits of the set.
    pub fn bits(&self) -> (r: u64)
        ensures
            r == self@,
            is_stream_flag_bits(r),
    {
        proof {
            use_type_invariant(self);
        }
        self.bits
    }

    /// The set with the given bits.
    ///
    /// Returns `None` if `bits` sets any bit that is not a defined flag.
    pub fn from_bits(bits: u64) -> (r: Option<Self>)
        ensures
            r is Some <==> is_stream_flag_bits(bits),
            r matches Some(f) ==> f@ == bits,
    {
        if bits & PA_ALL_STREAM_FLAGS == bits {
            Some(Self::from_valid_bits(bits))
        } else {
            None
        }
    }

    /// The set of the defined flags among `bits`; other bits are dropped.
    pub fn from_bits_truncate(bits: u64) -> (r: Self)
        ensures
            r@ == bits & PA_ALL_STREAM_FLAGS,
    {
        let b = bits & PA_ALL_STREAM_FLAGS;
        proof {
            lemma_flag_bits();
        }
        Self::from_valid_bits(b)
    }

    /// The set with the given bits, or the empty set if `bits` sets any bit that is not a
    /// defined flag.
    pub fn from_bits_or_empty(bits: u64) -> (r: Self)
        ensures
            r@ == (if is_stream_flag_bits(bits) { bits } else { 0 }),
    {
        match Self::from_bits(bits) {
            Some(f) => f,
            None => Self::empty(),
        }
    }

    /// No flag is set.
    pub fn is_empty(&self) -> (r: bool)
        ensures
            r == (self@ == 0),
    {
        self.bits() == 0
    }

    /// Every flag of `other` is set in `self`.
    pub fn contains(&self, other: Self) -> (r: bool)
        ensures
            r == (self@ & other@ == other@),
    {
        self.bits() & other.bits() == other.bits()
    }

    /// The flags set in `self` or in `other`.
    pub fn union(self, other: Self) -> (r: Self)
        ensures
            r@ == self@ | other@,
    {
        let a = self.bits();
        let b = other.bits();
        proof {
            lemma_flag_bits();
        }
        Self::from_valid_bits(a | b)
    }

    /// Set every flag of `other` in `self`.
    pub fn insert(&mut self, other: Self)
        ensures
            final(self)@ == old(self)@ | other@,
    {
        *self = self.union(other);
    }

    /// Clear every flag of `other` in `self`.
    pub fn remove(&mut self, other: Self)
        ensures
            final(self)@ == old(self)@ & !other@,
    {
        let a = self.bits();
        let b = other.bits();
        proof {
            lemma_flag_bits();
        }
        *self = Self::from_valid_bits(a & !b);
    }

    /// The text the set is displayed as: the quoted name of the flag whose bits the set has
    /// exactly, or the quoted `<Unknown StreamFlags>`.
    pub fn display_text(&self) -> (r: &'static str)
        ensures
            r@ == display_text_of(self@),
    {
        let b = self.bits();
        if b == PA_NO_FLAG {
            "\"NO_FLAG\""
        } else if b == PA_CLIP_OFF {
            "\"CLIP_OFF\""
        } else if b == PA_DITHER_OFF {
            "\"DITHER_OFF\""
        } else if b == PA_NEVER_DROP_INPUT {
            "\"NEVER_DROP_INPUT\""
        } else if b == PA_PRIME_OUTPUT_BUFFERS_USING_STREAM_CALLBACK {
            "\"PRIME_OUTPUT_BUFFERS_USING_STREAM_CALLBACK\""
        } else if b == PA_PLATFORM_SPECIFIC_FLAGS {
            "\"PLATFORM_SPECIFIC_FLAGS\""
        } else {
            "\"<Unknown StreamFlags>\""
        }
    }
}

} // verus!
