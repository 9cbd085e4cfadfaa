//! A type safe wrapper around PortAudio's `PaSampleFormat` flags.
//!
//! A type used to specify one or more sample formats. Each value indicates a possible format for
//! sound data passed to and from the stream callback, Pa_ReadStream and Pa_WriteStream.
//!
//! The standard formats paFloat32, paInt16, paInt32, paInt24, paInt8 and aUInt8 are usually
//! implemented by all implementations.
//!
//! The floating point representation (FLOAT_32) uses +1.0 and -1.0 as the maximum and minimum
//! respectively.
//!
//! UINT_8 is an unsigned 8 bit format where 128 is considered "ground"
//!
//! The paNonInterleaved flag indicates that audio data is passed as an array of pointers to
//! separate buffers, one buffer for each channel. Usually, when this flag is not used, audio data
//! is passed as a single buffer with all channels interleaved.

use vstd::prelude::*;

verus! {

/// 32 bits float sample format (`paFloat32`).
pub const PA_FLOAT_32: u64 = 0x0000_0001;
/// 32 bits int sample format (`paInt32`).
pub const PA_INT_32: u64 = 0x0000_0002;
/// Packed 24 bits int sample format (`paInt24`).
pub const PA_INT_24: u64 = 0x0000_0004;
/// 16 bits int sample format (`paInt16`).
pub const PA_INT_16: u64 = 0x0000_0008;
/// 8 bits int sample format (`paInt8`).
pub const PA_INT_8: u64 = 0x0000_0010;
/// 8 bits unsigned int sample format (`paUInt8`).
pub const PA_UINT_8: u64 = 0x0000_0020;
/// Custom sample format (`paCustomFormat`).
pub const PA_CUSTOM_FORMAT: u64 = 0x0001_0000;
/// Non interleaved sample format (`paNonInterleaved`).
pub const PA_NON_INTERLEAVED: u64 = 0x8000_0000;
/// The union of all defined flags.
pub const PA_ALL_SAMPLE_FORMAT_FLAGS: u64 = 0x8001_003F;

/// `bits` sets no bit outside the defined flags.
pub open spec fn is_sample_format_bits(bits: u64) -> bool {
    bits & PA_ALL_SAMPLE_FORMAT_FLAGS == bits
}

/// Facts about the flag bits: every defined flag is valid, and the set operations keep bits
/// valid.
proof fn lemma_flag_bits()
    by (bit_vector)
    ensures
        PA_FLOAT_32 & PA_ALL_SAMPLE_FORMAT_FLAGS == PA_FLOAT_32,
        PA_INT_32 & PA_ALL_SAMPLE_FORMAT_FLAGS == PA_INT_32,
        PA_INT_24 & PA_ALL_SAMPLE_FORMAT_FLAGS == PA_INT_24,
        PA_INT_16 & PA_ALL_SAMPLE_FORMAT_FLAGS == PA_INT_16,
        PA_INT_8 & PA_ALL_SAMPLE_FORMAT_FLAGS == PA_INT_8,
        PA_UINT_8 & PA_ALL_SAMPLE_FORMAT_FLAGS == PA_UINT_8,
        PA_CUSTOM_FORMAT & PA_ALL_SAMPLE_FORMAT_FLAGS == PA_CUSTOM_FORMAT,
        PA_NON_INTERLEAVED & PA_ALL_SAMPLE_FORMAT_FLAGS == PA_NON_INTERLEAVED,
        0u64 & PA_ALL_SAMPLE_FORMAT_FLAGS == 0u64,
        PA_ALL_SAMPLE_FORMAT_FLAGS & PA_ALL_SAMPLE_FORMAT_FLAGS == PA_ALL_SAMPLE_FORMAT_FLAGS,
        forall|a: u64, b: u64|
            #![trigger a | b]
            (a & PA_ALL_SAMPLE_FORMAT_FLAGS == a && b & PA_ALL_SAMPLE_FORMAT_FLAGS == b) ==> (a | b) & PA_ALL_SAMPLE_FORMAT_FLAGS == (a | b),
        forall|a: u64, b: u64|
            #![trigger a & !b]
            a & PA_ALL_SAMPLE_FORMAT_FLAGS == a ==> (a & !b) & PA_ALL_SAMPLE_FORMAT_FLAGS == (a & !b),
        forall|b: u64| #![trigger b & PA_ALL_SAMPLE_FORMAT_FLAGS] (b & PA_ALL_SAMPLE_FORMAT_FLAGS) & PA_ALL_SAMPLE_FORMAT_FLAGS == b & PA_ALL_SAMPLE_FORMAT_FLAGS,
        forall|a: u64, b: u64| #![trigger a | b] (a | b) & b == b && (a | b) & a == a,
{
}

/// The union of two sets of flags contains both of them: after `insert(other)`, a set
/// `contains(other)` and every flag it contained before.
pub proof fn lemma_union_contains(a: u64, b: u64)
    ensures
        (a | b) & b == b,
        (a | b) & a == a,
{
    lemma_flag_bits();
    assert((a | b) & b == b && (a | b) & a == a);
}

/// The text a set of flags is displayed as: the quoted name of the flag whose bits it has
/// exactly, or the quoted `<Unknown SampleFormatFlags>`.
pub open spec fn display_text_of(bits: u64) -> Seq<char> {
    if bits == PA_FLOAT_32 {
        "\"FLOAT_32\""@
    } else if bits == PA_INT_32 {
        "\"INT_32\""@
    } else if bits == PA_INT_16 {
        "\"INT_16\""@
    } else if bits == PA_INT_8 {
        "\"INT_8\""@
    } else if bits == PA_UINT_8 {
        "\"UINT_8\""@
    } else if bits == PA_CUSTOM_FORMAT {
        "\"CUSTOM_FORMAT\""@
    } else if bits == PA_NON_INTERLEAVED {
        "\"NON_INTERLEAVED\""@
    } else {
        "\"<Unknown SampleFormatFlags>\""@
    }
}

/// A set of flags.
#[derive(Copy, Clone, PartialEq, Eq, Hash, Debug, Structural)]
pub struct SampleFormatFlags {
    bits: u64,
}

impl View for SampleFormatFlags {
    type V = u64;

    /// The raw bits of the set.
    closed spec fn view(&self) -> u64 {
        self.bits
    }
}

impl SampleFormatFlags {
    /// Only defined flags are ever set.
    #[verifier::type_invariant]
    closed spec fn inv(self) -> bool {
        is_sample_format_bits(self.bits)
    }

    /// Two sets of flags with the same bits are the same set.
    pub proof fn lemma_view_injective(self, other: Self)
        requires
            self@ == other@,
        ensures
            self == other,
    {
    }

    /// The set with exactly the bits `bits`.
    fn from_valid_bits(bits: u64) -> (r: Self)
        requires
            is_sample_format_bits(bits),
        ensures
            r@ == bits,
    {
        SampleFormatFlags { bits }
    }

    /// The empty set of flags.
    pub fn empty() -> (r: Self)
        ensures
            r@ == 0,
    {
        proof {
            lemma_flag_bits();
        }
        Self::from_valid_bits(0)
    }

    /// The set of all defined flags.
    pub fn all() -> (r: Self)
        ensures
            r@ == PA_ALL_SAMPLE_FORMAT_FLAGS,
    {
        proof {
            lemma_flag_bits();
        }
        Self::from_valid_bits(PA_ALL_SAMPLE_FORMAT_FLAGS)
    }

    /// 32 bits float sample format (`paFloat32`).
    pub fn float_32() -> (r: Self)
        ensures
            r@ == PA_FLOAT_32,
    {
        proof {
            lemma_flag_bits();
        }
        Self::from_valid_bits(PA_FLOAT_32)
    }

    /// 32 bits int sample format (`paInt32`).
    pub fn int_32() -> (r: Self)
        ensures
            r@ == PA_INT_32,
    {
        proof {
            lemma_flag_bits();
        }
        Self::from_valid_bits(PA_INT_32)
    }

    /// Packed 24 bits int sample format (`paInt24`).
    pub fn int_24() -> (r: Self)
        ensures
            r@ == PA_INT_24,
    {
        proof {
            lemma_flag_bits();
        }
        Self::from_valid_bits(PA_INT_24)
    }

    /// 16 bits int sample format (`paInt16`).
    pub fn int_16() -> (r: Self)
        ensures
            r@ == PA_INT_16,
    {
        proof {
            lemma_flag_bits();
        }
        Self::from_valid_bits(PA_INT_16)
    }

    /// 8 bits int sample format (`paInt8`).
    pub fn int_8() -> (r: Self)
        ensures
            r@ == PA_INT_8,
    {
        proof {
            lemma_flag_bits();
        }
        Self::from_valid_bits(PA_INT_8)
    }

    /// 8 bits unsigned int sample format (`paUInt8`).
    pub fn uint_8() -> (r: Self)
        ensures
            r@ == PA_UINT_8,
    {
        proof {
            lemma_flag_bits();
        }
        Self::from_valid_bits(PA_UINT_8)
    }

    /// Custom sample format (`paCustomFormat`).
    pub fn custom_format() -> (r: Self)
        ensures
            r@ == PA_CUSTOM_FORMAT,
    {
        proof {
            lemma_flag_bits();
        }
        Self::from_valid_bits(PA_CUSTOM_FORMAT)
    }

    /// Non interleaved sample format (`paNonInterleaved`).
    pub fn non_interleaved() -> (r: Self)
        ensures
            r@ == PA_NON_INTERLEAVED,
    {
        proof {
            lemma_flag_bits();
        }
        Self::from_valid_bits(PA_NON_INTERLEAVED)
    }

    /// The raw bits of the set.
    pub fn bits(&self) -> (r: u64)
        ensures
            r == self@,
            is_sample_format_bits(r),
    {
        proof {
            use_type_invariant(self);
        }
        self.bits
    }

    /// The set with the given bits.
    ///
    /// Returns `None` if `bits` sets any bit that is not a defined flag.
    pub fn from_bits(bits: u64) -> (r: Option<Self>)
        ensures
            r is Some <==> is_sample_format_bits(bits),
            r matches Some(f) ==> f@ == bits,
    {
        if bits & PA_ALL_SAMPLE_FORMAT_FLAGS == bits {
            Some(Self::from_valid_bits(bits))
        } else {
            None
        }
    }

    /// The set of the defined flags among `bits`; other bits are dropped.
    pub fn from_bits_truncate(bits: u64) -> (r: Self)
        ensures
            r@ == bits & PA_ALL_SAMPLE_FORMAT_FLAGS,
    {
        let b = bits & PA_ALL_SAMPLE_FORMAT_FLAGS;
        proof {
            lemma_flag_bits();
        }
        Self::from_valid_bits(b)
    }

    /// The set with the given bits, or the empty set if `bits` sets any bit that is not a
    /// defined flag.
    pub fn from_bits_or_empty(bits: u64) -> (r: Self)
        ensures
            r@ == (if is_sample_format_bits(bits) { bits } else { 0 }),
    {
        match Self::from_bits(bits) {
            Some(f) => f,
            None => Self::empty(),
        }
    }

    /// No flag is set.
    pub fn is_empty(&self) -> (r: bool)
        ensures
            r == (self@ == 0),
    {
        self.bits() == 0
    }

    /// Every flag of `other` is set in `self`.
    pub fn contains(&self, other: Self) -> (r: bool)
        ensures
            r == (self@ & other@ == other@),
    {
        self.bits() & other.bits() == other.bits()
    }

    /// The flags set in `self` or in `other`.
    pub fn union(self, other: Self) -> (r: Self)
        ensures
            r@ == self@ | other@,
    {
        let a = self.bits();
        let b = other.bits();
        proof {
            lemma_flag_bits();
        }
        Self::from_valid_bits(a | b)
    }

    /// Set every flag of `other` in `self`.
    pub fn insert(&mut self, other: Self)
        ensures
            final(self)@ == old(self)@ | other@,
    {
        *self = self.union(other);
    }

    /// Clear every flag of `other` in `self`.
    pub fn remove(&mut self, other: Self)
        ensures
            final(self)@ == old(self)@ & !other@,
    {
        let a = self.bits();
        let b = other.bits();
        proof {
            lemma_flag_bits();
        }
        *self = Self::from_valid_bits(a & !b);
    }

    /// The text the set is displayed as: the quoted name of the flag whose bits the set has
    /// exactly, or the quoted `<Unknown SampleFormatFlags>`.
    pub fn display_text(&self) -> (r: &'static str)
        ensures
            r@ == display_text_of(self@),
    {
        let b = self.bits();
        if b == PA_FLOAT_32 {
            "\"FLOAT_32\""
        } else if b == PA_INT_32 {
            "\"INT_32\""
        } else if b == PA_INT_16 {
            "\"INT_16\""
        } else if b == PA_INT_8 {
            "\"INT_8\""
        } else if b == PA_UINT_8 {
            "\"UINT_8\""
        } else if b == PA_CUSTOM_FORMAT {
            "\"CUSTOM_FORMAT\""
        } else if b == PA_NON_INTERLEAVED {
            "\"NON_INTERLEAVED\""
        } else {
            "\"<Unknown SampleFormatFlags>\""
        }
    }
}

} // verus!
