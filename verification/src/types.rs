//! Types used in the PortAudio API

use vstd::prelude::*;
use vstd::std_specs::convert::FromSpecImpl;
use vstd::utf8::encode_utf8;

use crate::cstr::{name_from_c_str, name_of_bytes};
use crate::error::PA_NO_DEVICE;

pub mod sample_format_flags;

pub use self::sample_format_flags::SampleFormatFlags;
use self::sample_format_flags::{
    PA_CUSTOM_FORMAT, PA_FLOAT_32, PA_INT_16, PA_INT_24, PA_INT_32, PA_INT_8, PA_NON_INTERLEAVED,
    PA_UINT_8,
};

verus! {

/// The type used to refer to audio devices.
///
/// Values of this type usually range from 0 to (PortAudio::device_count-1).
#[derive(Copy, Clone, Debug, PartialEq, Eq, PartialOrd, Ord, Structural)]
pub struct DeviceIndex(pub u32);

/// The device to be used by some stream.
///
/// This is used as a field within the Settings for a **Stream**.
#[derive(Copy, Clone, Debug, PartialEq, Eq, Structural)]
pub enum DeviceKind {
    /// An index to some Device.
    Index(DeviceIndex),
    /// Indicates that the device(s) to be used are specified in the host api specific stream info
    /// structure.
    UseHostApiSpecificDeviceSpecification,
}

/// The `paUseHostApiSpecificDeviceSpecification` device value of the C API.
pub const PA_USE_HOST_API_SPECIFIC_DEVICE_SPECIFICATION: i32 = -2;

impl From<DeviceIndex> for i32 {
    /// The C API's device index: the index reinterpreted as a C `int`.
    fn from(idx: DeviceIndex) -> (r: i32) {
        let DeviceIndex(idx) = idx;
        idx as i32
    }
}

impl FromSpecImpl<DeviceIndex> for i32 {
    open spec fn obeys_from_spec() -> bool {
        true
    }

    open spec fn from_spec(idx: DeviceIndex) -> i32 {
        idx.0 as i32
    }
}

impl From<DeviceIndex> for DeviceKind {
    fn from(idx: DeviceIndex) -> (r: DeviceKind) {
        DeviceKind::Index(idx)
    }
}

impl FromSpecImpl<DeviceIndex> for DeviceKind {
    open spec fn obeys_from_spec() -> bool {
        true
    }

    open spec fn from_spec(idx: DeviceIndex) -> DeviceKind {
        DeviceKind::Index(idx)
    }
}

/// The C API's device value for a **DeviceKind**.
pub open spec fn c_device_of_kind(kind: DeviceKind) -> i32 {
    match kind {
        DeviceKind::Index(idx) => idx.0 as i32,
        DeviceKind::UseHostApiSpecificDeviceSpecification =>
            PA_USE_HOST_API_SPECIFIC_DEVICE_SPECIFICATION,
    }
}

impl From<DeviceKind> for i32 {
    fn from(kind: DeviceKind) -> (r: i32) {
        match kind {
            DeviceKind::Index(idx) => idx.into(),
            DeviceKind::UseHostApiSpecificDeviceSpecification => -2,
        }
    }
}

impl FromSpecImpl<DeviceKind> for i32 {
    open spec fn obeys_from_spec() -> bool {
        true
    }

    open spec fn from_spec(kind: DeviceKind) -> i32 {
        c_device_of_kind(kind)
    }
}

/// The special value may be used to request that the stream callback will receive an optimal (and
/// possibly varying) number of frames based on host requirements and the requested latency
/// settings.
pub const FRAMES_PER_BUFFER_UNSPECIFIED: u32 = 0;

/// The type used to enumerate to host APIs at runtime.
/// Values of this type range from 0 to (pa::get_host_api_count()-1).
pub type HostApiIndex = u16;

/// An type alias used to represent a given number of frames.
pub type Frames = i64;

/// A type used to dynamically represent the various standard sample formats (usually) supported by
/// all PortAudio implementations.
#[derive(Copy, Clone, Debug, PartialEq, Eq, Structural)]
pub enum SampleFormat {
    /// Uses -1.0 and +1.0 as the minimum and maximum respectively.
    F32,
    /// 32-bit signed integer sample representation.
    I32,
    /// 24-bit signed integer sample representation.
    I24,
    /// 16-bit signed integer sample representation.
    I16,
    /// 8-bit signed integer sample representation.
    I8,
    /// An unsigned 8 bit format where 128 is considered "ground"
    U8,
    /// Some custom sample format.
    ///
    /// It is theoretically possible to pass "custom" data formats to PortAudio using the
    /// paCustomFormat SampleFormat flag; no implementation is known to use it.
    Custom,
    /// This variant is used when none of the above variants can be inferred from a given
    /// set of **SampleFormatFlags** via the `SampleFormat::from_flags` function.
    Unknown,
}

/// All bits of `flag` are set in `bits`.
pub open spec fn has_flag(bits: u64, flag: u64) -> bool {
    bits & flag == flag
}

/// The sample format read from a set of flags: the first of F32, I32, I24, I16, I8, U8 and
/// Custom whose flag is set, or **Unknown** if none is.
pub open spec fn format_of_flags(bits: u64) -> SampleFormat {
    if has_flag(bits, PA_FLOAT_32) {
        SampleFormat::F32
    } else if has_flag(bits, PA_INT_32) {
        SampleFormat::I32
    } else if has_flag(bits, PA_INT_24) {
        SampleFormat::I24
    } else if has_flag(bits, PA_INT_16) {
        SampleFormat::I16
    } else if has_flag(bits, PA_INT_8) {
        SampleFormat::I8
    } else if has_flag(bits, PA_UINT_8) {
        SampleFormat::U8
    } else if has_flag(bits, PA_CUSTOM_FORMAT) {
        SampleFormat::Custom
    } else {
        SampleFormat::Unknown
    }
}

/// The flag of each sample format; **Unknown** has none.
pub open spec fn flags_of_format(format: SampleFormat) -> u64 {
    match format {
        SampleFormat::F32 => PA_FLOAT_32,
        SampleFormat::I32 => PA_INT_32,
        SampleFormat::I24 => PA_INT_24,
        SampleFormat::I16 => PA_INT_16,
        SampleFormat::I8 => PA_INT_8,
        SampleFormat::U8 => PA_UINT_8,
        SampleFormat::Custom => PA_CUSTOM_FORMAT,
        SampleFormat::Unknown => 0,
    }
}

/// The size in bytes of one sample of each format; `0` for **Custom** and **Unknown**.
pub open spec fn size_of_format(format: SampleFormat) -> u8 {
    match format {
        SampleFormat::F32 | SampleFormat::I32 => 4,
        SampleFormat::I24 => 3,
        SampleFormat::I16 => 2,
        SampleFormat::I8 | SampleFormat::U8 => 1,
        SampleFormat::Custom | SampleFormat::Unknown => 0,
    }
}

impl SampleFormat {
    /// Inspects the given **SampleFormatFlags** for the format.
    ///
    /// Returns the first of F32, I32, I24, I16, I8, U8 and Custom whose flag is set, or
    /// **Unknown** if no matching format is found.
    pub fn from_flags(flags: SampleFormatFlags) -> (r: Self)
        ensures
            r == format_of_flags(flags@),
    {
        if flags.contains(SampleFormatFlags::float_32()) {
            SampleFormat::F32
        } else if flags.contains(SampleFormatFlags::int_32()) {
            SampleFormat::I32
        } else if flags.contains(SampleFormatFlags::int_24()) {
            SampleFormat::I24
        } else if flags.contains(SampleFormatFlags::int_16()) {
            SampleFormat::I16
        } else if flags.contains(SampleFormatFlags::int_8()) {
            SampleFormat::I8
        } else if flags.contains(SampleFormatFlags::uint_8()) {
            SampleFormat::U8
        } else if flags.contains(SampleFormatFlags::custom_format()) {
            SampleFormat::Custom
        } else {
            SampleFormat::Unknown
        }
    }

    /// Converts `self` into the respective **SampleFormatFlags**.
    pub fn flags(self) -> (r: SampleFormatFlags)
        ensures
            r@ == flags_of_format(self),
    {
        match self {
            SampleFormat::F32 => SampleFormatFlags::float_32(),
            SampleFormat::I32 => SampleFormatFlags::int_32(),
            SampleFormat::I24 => SampleFormatFlags::int_24(),
            SampleFormat::I16 => SampleFormatFlags::int_16(),
            SampleFormat::I8 => SampleFormatFlags::int_8(),
            SampleFormat::U8 => SampleFormatFlags::uint_8(),
            SampleFormat::Custom => SampleFormatFlags::custom_format(),
            SampleFormat::Unknown => SampleFormatFlags::empty(),
        }
    }

    /// Returns the size of the **SampleFormat** in bytes.
    ///
    /// Returns `0` if the **SampleFormat** is **Custom** or **Unknown**.
    pub fn size_in_bytes(&self) -> (r: u8)
        ensures
            r == size_of_format(*self),
    {
        match *self {
            SampleFormat::F32 | SampleFormat::I32 => 4,
            SampleFormat::I24 => 3,
            SampleFormat::I16 => 2,
            SampleFormat::I8 | SampleFormat::U8 => 1,
            SampleFormat::Custom | SampleFormat::Unknown => 0,
        }
    }
}

/// Which format flags are set in each format's flag, alone or with the non-interleaved flag.
proof fn lemma_format_flag_bits()
    by (bit_vector)
    ensures
        has_flag(1u64, 1u64),
        has_flag((1u64 | 0x8000_0000u64), 1u64),
        !has_flag(2u64, 1u64) && has_flag(2u64, 2u64),
        !has_flag((2u64 | 0x8000_0000u64), 1u64) && has_flag((2u64 | 0x8000_0000u64), 2u64),
        !has_flag(4u64, 1u64) && !has_flag(4u64, 2u64) && has_flag(4u64, 4u64),
        !has_flag((4u64 | 0x8000_0000u64), 1u64) && !has_flag((4u64 | 0x8000_0000u64), 2u64) && has_flag((4u64 | 0x8000_0000u64), 4u64),
        !has_flag(8u64, 1u64) && !has_flag(8u64, 2u64) && !has_flag(8u64, 4u64) && has_flag(8u64, 8u64),
        !has_flag((8u64 | 0x8000_0000u64), 1u64) && !has_flag((8u64 | 0x8000_0000u64), 2u64) && !has_flag((8u64 | 0x8000_0000u64), 4u64) && has_flag((8u64 | 0x8000_0000u64), 8u64),
        !has_flag(0x10u64, 1u64) && !has_flag(0x10u64, 2u64) && !has_flag(0x10u64, 4u64) && !has_flag(0x10u64, 8u64) && has_flag(0x10u64, 0x10u64),
        !has_flag((0x10u64 | 0x8000_0000u64), 1u64) && !has_flag((0x10u64 | 0x8000_0000u64), 2u64) && !has_flag((0x10u64 | 0x8000_0000u64), 4u64) && !has_flag((0x10u64 | 0x8000_0000u64), 8u64) && has_flag((0x10u64 | 0x8000_0000u64), 0x10u64),
        !has_flag(0x20u64, 1u64) && !has_flag(0x20u64, 2u64) && !has_flag(0x20u64, 4u64) && !has_flag(0x20u64, 8u64) && !has_flag(0x20u64, 0x10u64) && has_flag(0x20u64, 0x20u64),
        !has_flag((0x20u64 | 0x8000_0000u64), 1u64) && !has_flag((0x20u64 | 0x8000_0000u64), 2u64) && !has_flag((0x20u64 | 0x8000_0000u64), 4u64) && !has_flag((0x20u64 | 0x8000_0000u64), 8u64) && !has_flag((0x20u64 | 0x8000_0000u64), 0x10u64) && has_flag((0x20u64 | 0x8000_0000u64), 0x20u64),
        !has_flag(0x10000u64, 1u64) && !has_flag(0x10000u64, 2u64) && !has_flag(0x10000u64, 4u64) && !has_flag(0x10000u64, 8u64) && !has_flag(0x10000u64, 0x10u64) && !has_flag(0x10000u64, 0x20u64) && has_flag(0x10000u64, 0x10000u64),
        !has_flag((0x10000u64 | 0x8000_0000u64), 1u64) && !has_flag((0x10000u64 | 0x8000_0000u64), 2u64) && !has_flag((0x10000u64 | 0x8000_0000u64), 4u64) && !has_flag((0x10000u64 | 0x8000_0000u64), 8u64) && !has_flag((0x10000u64 | 0x8000_0000u64), 0x10u64) && !has_flag((0x10000u64 | 0x8000_0000u64), 0x20u64) && has_flag((0x10000u64 | 0x8000_0000u64), 0x10000u64),
        !has_flag(0u64, 1u64) && !has_flag(0u64, 2u64) && !has_flag(0u64, 4u64) && !has_flag(0u64, 8u64) && !has_flag(0u64, 0x10u64) && !has_flag(0u64, 0x20u64) && !has_flag(0u64, 0x10000u64),
        !has_flag((0u64 | 0x8000_0000u64), 1u64) && !has_flag((0u64 | 0x8000_0000u64), 2u64) && !has_flag((0u64 | 0x8000_0000u64), 4u64) && !has_flag((0u64 | 0x8000_0000u64), 8u64) && !has_flag((0u64 | 0x8000_0000u64), 0x10u64) && !has_flag((0u64 | 0x8000_0000u64), 0x20u64) && !has_flag((0u64 | 0x8000_0000u64), 0x10000u64),
{
}

/// Reading the format back from a format's flags gives the format, whether or not the
/// non-interleaved flag is added to them.
pub proof fn lemma_format_flags_roundtrip(format: SampleFormat)
    ensures
        format_of_flags(flags_of_format(format)) == format,
        format_of_flags(flags_of_format(format) | PA_NON_INTERLEAVED) == format,
{
    lemma_format_flag_bits();
}

/// Every sample format has the flag that PortAudio's `PaSampleFormat` gives it (`paFloat32`
/// `0x1`, `paInt32` `0x2`, `paInt24` `0x4`, `paInt16` `0x8`, `paInt8` `0x10`, `paUInt8` `0x20`,
/// `paCustomFormat` `0x10000`, none for **Unknown**), reads back from that flag, and has the size
/// in bytes of its samples (`0` for **Custom** and **Unknown**).
pub proof fn lemma_portaudio_sample_formats()
    ensures
        flags_of_format(SampleFormat::F32) == 0x0000_0001u64,
        format_of_flags(0x0000_0001u64) == SampleFormat::F32,
        size_of_format(SampleFormat::F32) == 4,
        flags_of_format(SampleFormat::I32) == 0x0000_0002u64,
        format_of_flags(0x0000_0002u64) == SampleFormat::I32,
        size_of_format(SampleFormat::I32) == 4,
        flags_of_format(SampleFormat::I24) == 0x0000_0004u64,
        format_of_flags(0x0000_0004u64) == SampleFormat::I24,
        size_of_format(SampleFormat::I24) == 3,
        flags_of_format(SampleFormat::I16) == 0x0000_0008u64,
        format_of_flags(0x0000_0008u64) == SampleFormat::I16,
        size_of_format(SampleFormat::I16) == 2,
        flags_of_format(SampleFormat::I8) == 0x0000_0010u64,
        format_of_flags(0x0000_0010u64) == SampleFormat::I8,
        size_of_format(SampleFormat::I8) == 1,
        flags_of_format(SampleFormat::U8) == 0x0000_0020u64,
        format_of_flags(0x0000_0020u64) == SampleFormat::U8,
        size_of_format(SampleFormat::U8) == 1,
        flags_of_format(SampleFormat::Custom) == 0x0001_0000u64,
        format_of_flags(0x0001_0000u64) == SampleFormat::Custom,
        size_of_format(SampleFormat::Custom) == 0,
        flags_of_format(SampleFormat::Unknown) == 0u64,
        format_of_flags(0u64) == SampleFormat::Unknown,
        size_of_format(SampleFormat::Unknown) == 0,
{
    lemma_format_flags_roundtrip(SampleFormat::F32);
    lemma_format_flags_roundtrip(SampleFormat::I32);
    lemma_format_flags_roundtrip(SampleFormat::I24);
    lemma_format_flags_roundtrip(SampleFormat::I16);
    lemma_format_flags_roundtrip(SampleFormat::I8);
    lemma_format_flags_roundtrip(SampleFormat::U8);
    lemma_format_flags_roundtrip(SampleFormat::Custom);
    lemma_format_flags_roundtrip(SampleFormat::Unknown);
}

/// Unchanging unique identifiers for each supported host API
#[derive(Copy, Clone, PartialEq, Eq, PartialOrd, Debug, Structural)]
pub enum HostApiTypeId {
    /// In development host
    InDevelopment,
    /// Direct sound
    DirectSound,
    /// MMe API
    MME,
    /// ASIO API
    ASIO,
    /// Sound manager API
    SoundManager,
    /// Core Audio API
    CoreAudio,
    /// OSS API
    OSS,
    /// Alsa API
    ALSA,
    /// AL API
    AL,
    /// BeOS API
    BeOS,
    /// WDMKS
    WDMKS,
    /// Jack API
    JACK,
    /// WASAPI
    WASAPI,
    /// Audio Science HPI
    AudioScienceHPI,
}

/// The `PaHostApiTypeId` value of the C API for each host API.
pub open spec fn c_id_of(id: HostApiTypeId) -> i32 {
    match id {
        HostApiTypeId::InDevelopment => 0,
        HostApiTypeId::DirectSound => 1,
        HostApiTypeId::MME => 2,
        HostApiTypeId::ASIO => 3,
        HostApiTypeId::SoundManager => 4,
        HostApiTypeId::CoreAudio => 5,
        HostApiTypeId::OSS => 7,
        HostApiTypeId::ALSA => 8,
        HostApiTypeId::AL => 9,
        HostApiTypeId::BeOS => 10,
        HostApiTypeId::WDMKS => 11,
        HostApiTypeId::JACK => 12,
        HostApiTypeId::WASAPI => 13,
        HostApiTypeId::AudioScienceHPI => 14,
    }
}

/// `c_id` is the C value of some host API: `0..=14` except `6`.
pub open spec fn is_host_api_c_id(c_id: int) -> bool {
    0 <= c_id && c_id <= 14 && c_id != 6
}

/// The C values of the host APIs are exactly the values `0..=14` other than `6`.
pub proof fn lemma_c_id_range(c_id: int)
    ensures
        is_host_api_c_id(c_id) <==> exists|id: HostApiTypeId| c_id_of(id) == c_id,
{
    if is_host_api_c_id(c_id) {
        if c_id == 0 { assert(c_id_of(HostApiTypeId::InDevelopment) == c_id); }
        else if c_id == 1 { assert(c_id_of(HostApiTypeId::DirectSound) == c_id); }
        else if c_id == 2 { assert(c_id_of(HostApiTypeId::MME) == c_id); }
        else if c_id == 3 { assert(c_id_of(HostApiTypeId::ASIO) == c_id); }
        else if c_id == 4 { assert(c_id_of(HostApiTypeId::SoundManager) == c_id); }
        else if c_id == 5 { assert(c_id_of(HostApiTypeId::CoreAudio) == c_id); }
        else if c_id == 7 { assert(c_id_of(HostApiTypeId::OSS) == c_id); }
        else if c_id == 8 { assert(c_id_of(HostApiTypeId::ALSA) == c_id); }
        else if c_id == 9 { assert(c_id_of(HostApiTypeId::AL) == c_id); }
        else if c_id == 10 { assert(c_id_of(HostApiTypeId::BeOS) == c_id); }
        else if c_id == 11 { assert(c_id_of(HostApiTypeId::WDMKS) == c_id); }
        else if c_id == 12 { assert(c_id_of(HostApiTypeId::JACK) == c_id); }
        else if c_id == 13 { assert(c_id_of(HostApiTypeId::WASAPI) == c_id); }
        else { assert(c_id_of(HostApiTypeId::AudioScienceHPI) == c_id); }
    }
}

/// Every host API has the value that PortAudio's `PaHostApiTypeId` gives it (`paInDevelopment`
/// `0`, `paDirectSound` `1`, `paMME` `2`, `paASIO` `3`, `paSoundManager` `4`, `paCoreAudio` `5`,
/// `paOSS` `7`, `paALSA` `8`, `paAL` `9`, `paBeOS` `10`, `paWDMKS` `11`, `paJACK` `12`,
/// `paWASAPI` `13`, `paAudioScienceHPI` `14`); `6` names no host API.
pub proof fn lemma_portaudio_host_api_ids()
    ensures
        c_id_of(HostApiTypeId::InDevelopment) == 0,
        c_id_of(HostApiTypeId::DirectSound) == 1,
        c_id_of(HostApiTypeId::MME) == 2,
        c_id_of(HostApiTypeId::ASIO) == 3,
        c_id_of(HostApiTypeId::SoundManager) == 4,
        c_id_of(HostApiTypeId::CoreAudio) == 5,
        c_id_of(HostApiTypeId::OSS) == 7,
        c_id_of(HostApiTypeId::ALSA) == 8,
        c_id_of(HostApiTypeId::AL) == 9,
        c_id_of(HostApiTypeId::BeOS) == 10,
        c_id_of(HostApiTypeId::WDMKS) == 11,
        c_id_of(HostApiTypeId::JACK) == 12,
        c_id_of(HostApiTypeId::WASAPI) == 13,
        c_id_of(HostApiTypeId::AudioScienceHPI) == 14,
        !is_host_api_c_id(6),
        !is_host_api_c_id(-1),
        !is_host_api_c_id(15),
{
}

/// Reading back the C value of a host API gives the same host API: the value is a known one,
/// and no other host API has it.
pub proof fn lemma_host_api_type_id_roundtrip(id: HostApiTypeId, other: HostApiTypeId)
    ensures
        is_host_api_c_id(c_id_of(id) as int),
        c_id_of(other) == c_id_of(id) ==> other == id,
{
}

impl HostApiTypeId {
    /// The `PaHostApiTypeId` value of the C API for this host API.
    pub fn c_id(self) -> (r: i32)
        ensures
            r == c_id_of(self),
    {
        match self {
            HostApiTypeId::InDevelopment => 0,
            HostApiTypeId::DirectSound => 1,
            HostApiTypeId::MME => 2,
            HostApiTypeId::ASIO => 3,
            HostApiTypeId::SoundManager => 4,
            HostApiTypeId::CoreAudio => 5,
            HostApiTypeId::OSS => 7,
            HostApiTypeId::ALSA => 8,
            HostApiTypeId::AL => 9,
            HostApiTypeId::BeOS => 10,
            HostApiTypeId::WDMKS => 11,
            HostApiTypeId::JACK => 12,
            HostApiTypeId::WASAPI => 13,
            HostApiTypeId::AudioScienceHPI => 14,
        }
    }

    /// Convert the given ffi::HostApiTypeId to a HostApiTypeId.
    ///
    /// Returns `None` if `c_id` is not the C value of any host API.
    pub fn from_c_id(c_id: i32) -> (r: Option<Self>)
        ensures
            r is Some <==> is_host_api_c_id(c_id as int),
            r matches Some(id) ==> c_id_of(id) == c_id,
    {
        match c_id {
            0 => Some(HostApiTypeId::InDevelopment),
            1 => Some(HostApiTypeId::DirectSound),
            2 => Some(HostApiTypeId::MME),
            3 => Some(HostApiTypeId::ASIO),
            4 => Some(HostApiTypeId::SoundManager),
            5 => Some(HostApiTypeId::CoreAudio),
            7 => Some(HostApiTypeId::OSS),
            8 => Some(HostApiTypeId::ALSA),
            9 => Some(HostApiTypeId::AL),
            10 => Some(HostApiTypeId::BeOS),
            11 => Some(HostApiTypeId::WDMKS),
            12 => Some(HostApiTypeId::JACK),
            13 => Some(HostApiTypeId::WASAPI),
            14 => Some(HostApiTypeId::AudioScienceHPI),
            _ => None,
        }
    }
}

/// The optional device read from a C device value: `Some(Some(idx))` for an index,
/// `Some(None)` for `paNoDevice`, and `None` for any other negative value.
pub open spec fn optional_device_of_c(idx: i32) -> Option<Option<DeviceIndex>> {
    if idx >= 0 {
        Some(Some(DeviceIndex(idx as u32)))
    } else if idx == PA_NO_DEVICE {
        Some(None)
    } else {
        None
    }
}

/// The C device value of an optional device: the index, or `paNoDevice`.
pub open spec fn c_of_optional_device(device: Option<DeviceIndex>) -> i32 {
    match device {
        Some(idx) => idx.0 as i32,
        None => PA_NO_DEVICE,
    }
}

/// What device values mean in the C API: an index is itself (as a C `int`), the host API
/// specific device is `-2`; in a host API's information a non-negative value is that device,
/// `paNoDevice` (`-1`) is no device, and any other value cannot be read.
pub proof fn lemma_c_device_values(idx: DeviceIndex, c: i32)
    ensures
        c_device_of_kind(DeviceKind::Index(idx)) == idx.0 as i32,
        idx.0 <= i32::MAX ==> c_device_of_kind(DeviceKind::Index(idx)) == idx.0,
        c_device_of_kind(DeviceKind::UseHostApiSpecificDeviceSpecification) == -2,
        c >= 0 ==> optional_device_of_c(c) == Some(Some(DeviceIndex(c as u32))),
        c >= 0 ==> (optional_device_of_c(c) matches Some(Some(d)) && d.0 == c),
        optional_device_of_c(-1i32) == Some(None::<DeviceIndex>),
        c < -1 ==> optional_device_of_c(c) is None,
        c_of_optional_device(None) == -1,
        c_of_optional_device(Some(idx)) == idx.0 as i32,
{
}

fn optional_device_from_c(idx: i32) -> (r: Option<Option<DeviceIndex>>)
    ensures
        r == optional_device_of_c(idx),
{
    if idx >= 0 {
        Some(Some(DeviceIndex(idx as u32)))
    } else if idx == PA_NO_DEVICE {
        Some(None)
    } else {
        None
    }
}

fn optional_device_to_c(device: Option<DeviceIndex>) -> (r: i32)
    ensures
        r == c_of_optional_device(device),
{
    match device {
        Some(i) => i.into(),
        None => PA_NO_DEVICE,
    }
}

/// A structure containing information about a particular host API.
#[derive(Clone, Debug, PartialEq)]
pub struct HostApiInfo<'a> {
    /// The version of the struct
    pub struct_version: i32,
    /// The type of the current host
    pub host_type: HostApiTypeId,
    /// The name of the host
    pub name: &'a str,
    /// The total count of device in the host
    pub device_count: u32,
    /// The index to the default input device or None if no input device is available
    pub default_input_device: Option<DeviceIndex>,
    /// The index to the default output device or None if no output device is available
    pub default_output_device: Option<DeviceIndex>,
}

/// The C API's `PaHostApiInfo`, with the name given as the bytes of its C string.
#[allow(non_camel_case_types)]
#[derive(Copy, Clone, Debug, PartialEq)]
pub struct C_PaHostApiInfo<'a> {
    /// The version of the struct
    pub struct_version: i32,
    /// The `PaHostApiTypeId` of the host
    pub host_type: i32,
    /// The bytes of the host's name (without the terminating NUL)
    pub name: &'a [u8],
    /// The number of devices of the host
    pub device_count: i32,
    /// The default input device, or `paNoDevice`
    pub default_input_device: i32,
    /// The default output device, or `paNoDevice`
    pub default_output_device: i32,
}

/// A C host API structure can be read: both default devices are an index or `paNoDevice`, the
/// device count is not negative and the host type is a known host API.
pub open spec fn c_host_api_info_is_valid(c_info: C_PaHostApiInfo) -> bool {
    &&& optional_device_of_c(c_info.default_input_device) is Some
    &&& optional_device_of_c(c_info.default_output_device) is Some
    &&& c_info.device_count >= 0
    &&& is_host_api_c_id(c_info.host_type as int)
}

/// `info` is what `c_info` describes, its name being `name_text`.
pub open spec fn host_api_info_matches(
    info: HostApiInfo,
    c_info: C_PaHostApiInfo,
    name_text: Seq<char>,
) -> bool {
    &&& info.struct_version == c_info.struct_version
    &&& c_id_of(info.host_type) == c_info.host_type
    &&& info.name@ == name_text
    &&& info.device_count == c_info.device_count as u32
    &&& Some(info.default_input_device) == optional_device_of_c(c_info.default_input_device)
    &&& Some(info.default_output_device) == optional_device_of_c(c_info.default_output_device)
}

impl<'a> HostApiInfo<'a> {
    /// Construct the HostApiInfo from the equivalent C struct.
    ///
    /// Returns `None` if:
    /// - either of the given device indices are invalid.
    /// - the device_count is less than `0`.
    /// - a valid `HostApiTypeId` can't be constructed from the given `host_type`.
    ///
    /// A name that is not valid UTF-8 is replaced by **INVALID_NAME**.
    pub fn from_c_info(c_info: C_PaHostApiInfo<'a>) -> (r: Option<HostApiInfo<'a>>)
        ensures
            r is Some <==> c_host_api_info_is_valid(c_info),
            r matches Some(info) ==> host_api_info_matches(info, c_info, name_of_bytes(c_info.name@)),
    {
        let default_input_device = match optional_device_from_c(c_info.default_input_device) {
            Some(d) => d,
            None => return None,
        };
        let default_output_device = match optional_device_from_c(c_info.default_output_device) {
            Some(d) => d,
            None => return None,
        };
        let device_count = if c_info.device_count >= 0 {
            c_info.device_count as u32
        } else {
            return None;
        };
        let host_type = match HostApiTypeId::from_c_id(c_info.host_type) {
            Some(ty) => ty,
            None => return None,
        };
        Some(
            HostApiInfo {
                struct_version: c_info.struct_version,
                host_type: host_type,
                name: name_from_c_str(c_info.name),
                device_count: device_count,
                default_input_device: default_input_device,
                default_output_device: default_output_device,
            },
        )
    }

    /// Convert the HostApiInfo into the equivalent C struct.
    pub fn to_c_info(&self) -> (r: C_PaHostApiInfo<'a>)
        ensures
            r.struct_version == self.struct_version,
            r.host_type == c_id_of(self.host_type),
            r.name@ == encode_utf8(self.name@),
            r.device_count == self.device_count as i32,
            r.default_input_device == c_of_optional_device(self.default_input_device),
            r.default_output_device == c_of_optional_device(self.default_output_device),
    {
        C_PaHostApiInfo {
            struct_version: self.struct_version,
            host_type: self.host_type.c_id(),
            name: self.name.as_bytes(),
            device_count: self.device_count as i32,
            default_input_device: optional_device_to_c(self.default_input_device),
            default_output_device: optional_device_to_c(self.default_output_device),
        }
    }
}

/// Structure used to return information about a host error condition.
#[derive(Clone, PartialEq, PartialOrd, Debug)]
pub struct HostErrorInfo<'a> {
    /// The code of the error
    pub code: u32,
    /// The string which explain the error
    pub text: &'a str,
}

/// The C API's `PaHostErrorInfo`, with the text given as the bytes of its C string.
#[allow(non_camel_case_types)]
#[derive(Copy, Clone, Debug, PartialEq)]
pub struct C_PaHostErrorInfo<'a> {
    /// The code of the error
    pub error_code: u32,
    /// The bytes of the text explaining the error (without the terminating NUL)
    pub error_text: &'a [u8],
}

impl<'a> HostErrorInfo<'a> {
    /// Construct a HostErrorInfo from the equivalent C struct.
    ///
    /// A text that is not valid UTF-8 is replaced by **INVALID_NAME**.
    pub fn from_c_error_info(c_error: C_PaHostErrorInfo<'a>) -> (r: HostErrorInfo<'a>)
        ensures
            r.code == c_error.error_code,
            r.text@ == name_of_bytes(c_error.error_text@),
    {
        HostErrorInfo { code: c_error.error_code, text: name_from_c_str(c_error.error_text) }
    }

    /// Convert the HostErrorInfo into the equivalent C struct.
    pub fn to_c_error_info(&self) -> (r: C_PaHostErrorInfo<'a>)
        ensures
            r.error_code == self.code,
            r.error_text@ == encode_utf8(self.text@),
    {
        C_PaHostErrorInfo { error_code: self.code, error_text: self.text.as_bytes() }
    }
}

/// Reading back the C form of a host API's information gives the same information, provided
/// its device count and device indices fit in a C `int`.
pub proof fn lemma_host_api_info_roundtrip(info: HostApiInfo, c_info: C_PaHostApiInfo)
    requires
        info.device_count <= i32::MAX,
        info.default_input_device matches Some(d) ==> d.0 <= i32::MAX,
        info.default_output_device matches Some(d) ==> d.0 <= i32::MAX,
        c_info.struct_version == info.struct_version,
        c_info.host_type == c_id_of(info.host_type),
        c_info.name@ == encode_utf8(info.name@),
        c_info.device_count == info.device_count as i32,
        c_info.default_input_device == c_of_optional_device(info.default_input_device),
        c_info.default_output_device == c_of_optional_device(info.default_output_device),
    ensures
        c_host_api_info_is_valid(c_info),
        host_api_info_matches(info, c_info, name_of_bytes(c_info.name@)),
{
    vstd::utf8::encode_utf8_valid_utf8(info.name@);
    vstd::utf8::encode_utf8_decode_utf8(info.name@);
    lemma_c_id_range(c_info.host_type as int);
}

/// Reading back the C form of a host error gives the same error.
pub proof fn lemma_host_error_info_roundtrip(info: HostErrorInfo, c_error: C_PaHostErrorInfo)
    requires
        c_error.error_code == info.code,
        c_error.error_text@ == encode_utf8(info.text@),
    ensures
        name_of_bytes(c_error.error_text@) == info.text@,
{
    vstd::utf8::encode_utf8_valid_utf8(info.text@);
    vstd::utf8::encode_utf8_decode_utf8(info.text@);
}

} // verus!
