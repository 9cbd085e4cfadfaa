//! The parts of PortAudio's stream handling that do not touch audio memory: the parameters of a
//! stream direction and their C encoding, stream flags, the decoding of the status values that
//! PortAudio's stream functions return, and the sizes of the audio buffers.

use vstd::prelude::*;

use crate::error::{code_of, error_of_code, is_error_code, Error};
use crate::types::sample_format_flags::{
    is_sample_format_bits, PA_NON_INTERLEAVED,
};
use crate::types::{
    c_device_of_kind, flags_of_format, format_of_flags, has_flag, lemma_format_flags_roundtrip,
    DeviceIndex, DeviceKind, SampleFormat, SampleFormatFlags,
    PA_USE_HOST_API_SPECIFIC_DEVICE_SPECIFICATION,
};

pub mod callback_flags;
pub mod flags;

pub use self::callback_flags::CallbackFlags;
pub use self::flags::Flags;

verus! {

/// There are two **Mode**s with which a **Stream** can be set: **Blocking** and **NonBlocking**.
pub trait Mode {}

/// A **Stream** **Mode** representing a blocking stream.
///
/// Unlike the **NonBlocking** stream, PortAudio requires that we manually manage the audio data
/// buffer for the **Blocking** stream.
pub struct Blocking<B> {
    buffer: B,
}

impl<B> Mode for Blocking<B> {}

impl<B> Blocking<B> {
    /// A blocking mode that transfers audio through `buffer`.
    pub fn new(buffer: B) -> (r: Self)
        ensures
            r.buffer() == buffer,
    {
        Blocking { buffer }
    }

    /// The buffer through which the stream's audio is transferred.
    pub closed spec fn buffer(&self) -> B {
        self.buffer
    }

    /// Borrow the buffer.
    pub fn buffer_ref(&self) -> (r: &B)
        ensures
            *r == self.buffer(),
    {
        &self.buffer
    }

    /// Mutably borrow the buffer.
    pub fn buffer_mut(&mut self) -> (r: &mut B)
        ensures
            *r == old(self).buffer(),
            final(self).buffer() == *final(r),
    {
        &mut self.buffer
    }
}

/// Describes stream availability and the number for frames available for reading/writing if there
/// is any.
#[derive(Copy, Clone, PartialEq, Eq, Debug, Structural)]
pub enum Available {
    /// The number of frames available for reading.
    Frames(i64),
    /// The input stream has overflowed.
    InputOverflowed,
    /// The output stream has underflowed.
    OutputUnderflowed,
}

/// The value returned by `Pa_GetStreamReadAvailable` or `Pa_GetStreamWriteAvailable` can be read:
/// it is a frame count or an error code.
pub open spec fn is_available_code(n: int) -> bool {
    n >= 0 || is_error_code(n)
}

/// The availability read from the value returned by `Pa_GetStreamReadAvailable` or
/// `Pa_GetStreamWriteAvailable`: a frame count when it is not negative, the overflow and
/// underflow conditions for their error codes, and an error for any other error code.
pub open spec fn available_of_code(n: int) -> Result<Available, Error> {
    if n >= 0 {
        Ok(Available::Frames(n as i64))
    } else if n == code_of(Error::InputOverflowed) {
        Ok(Available::InputOverflowed)
    } else if n == code_of(Error::OutputUnderflowed) {
        Ok(Available::OutputUnderflowed)
    } else {
        Err(error_of_code(n).unwrap())
    }
}

impl Available {
    /// Decode the value returned by `Pa_GetStreamReadAvailable` or
    /// `Pa_GetStreamWriteAvailable`.
    pub fn from_c_available(n: i64) -> (r: Result<Available, Error>)
        requires
            is_available_code(n as int),
        ensures
            r == available_of_code(n as int),
            n >= 0 ==> r == Ok::<Available, Error>(Available::Frames(n)),
            n == -9981 ==> r == Ok::<Available, Error>(Available::InputOverflowed),
            n == -9980 ==> r == Ok::<Available, Error>(Available::OutputUnderflowed),
            r matches Err(e) ==> code_of(e) == n,
    {
        if n >= 0 {
            Ok(Available::Frames(n))
        } else {
            proof {
                crate::error::lemma_error_code_roundtrip(Error::InputOverflowed, n as int);
                crate::error::lemma_error_code_roundtrip(Error::OutputUnderflowed, n as int);
            }
            match Error::from_i64(n).unwrap() {
                Error::InputOverflowed => Ok(Available::InputOverflowed),
                Error::OutputUnderflowed => Ok(Available::OutputUnderflowed),
                err => Err(err),
            }
        }
    }
}

/// What the availability values of the C library mean: a non-negative value is that many
/// frames, `paInputOverflowed` (`-9981`) and `paOutputUnderflowed` (`-9980`) are the overflow and
/// underflow conditions, and every other error code is the error with that code.
pub proof fn lemma_available_code_meaning(n: i64)
    requires
        is_available_code(n as int),
    ensures
        n >= 0 ==> available_of_code(n as int) == Ok::<Available, Error>(Available::Frames(n)),
        n >= 0 ==> (available_of_code(n as int) matches Ok(Available::Frames(f)) && f == n),
        n == -9981 ==> available_of_code(n as int) == Ok::<Available, Error>(
            Available::InputOverflowed,
        ),
        n == -9980 ==> available_of_code(n as int) == Ok::<Available, Error>(
            Available::OutputUnderflowed,
        ),
        n < 0 && n != -9981 && n != -9980 ==> (available_of_code(n as int) matches Err(e)
            && code_of(e) == n),
{
    crate::error::lemma_error_code_roundtrip(Error::InputOverflowed, n as int);
}

/// What the stream state values of the C library mean: `1` is yes, `0` is no, and any other
/// value is the error with that code.
pub proof fn lemma_stream_state_code_meaning(code: int)
    requires
        is_stream_state_code(code),
    ensures
        code == 1 ==> stream_state_of_code(code) == Ok::<bool, Error>(true),
        code == 0 ==> stream_state_of_code(code) == Ok::<bool, Error>(false),
        code != 0 && code != 1 ==> (stream_state_of_code(code) matches Err(e) && code_of(e)
            == code),
{
    crate::error::lemma_error_code_roundtrip(Error::NoError, code);
}

/// The value returned by `Pa_IsStreamStopped` or `Pa_IsStreamActive` can be read: `1`, `0` or an
/// error code.
pub open spec fn is_stream_state_code(code: int) -> bool {
    code == 1 || code == 0 || is_error_code(code)
}

/// The answer read from the value returned by `Pa_IsStreamStopped` or `Pa_IsStreamActive`:
/// `1` is yes, `0` is no, and any other value is an error code.
pub open spec fn stream_state_of_code(code: int) -> Result<bool, Error> {
    if code == 1 {
        Ok(true)
    } else if code == 0 {
        Ok(false)
    } else {
        Err(error_of_code(code).unwrap())
    }
}

/// Decode the value returned by `Pa_IsStreamStopped` or `Pa_IsStreamActive`.
pub fn stream_state_from_code(code: i32) -> (r: Result<bool, Error>)
    requires
        is_stream_state_code(code as int),
    ensures
        r == stream_state_of_code(code as int),
        code == 1 ==> r == Ok::<bool, Error>(true),
        code == 0 ==> r == Ok::<bool, Error>(false),
        r matches Err(e) ==> code_of(e) == code,
{
    match code {
        1 => Ok(true),
        0 => Ok(false),
        err => Err(Error::from_i32(err).unwrap()),
    }
}

/// Parameters for one direction (input or output) of a stream.
///
/// The suggested latency, a number of seconds, is carried as the bit pattern of its `f64`.
#[derive(Copy, Clone, PartialEq, Eq, Debug, Structural)]
pub struct Parameters {
    /// Index of the device to be used, or a variant indicating to use the host-specific API.
    pub device: DeviceKind,
    /// The number of channels for this device
    pub channel_count: i32,
    /// The bit pattern of the suggested latency (in seconds) for this device
    pub suggested_latency_bits: u64,
    /// Indicates the format of the audio buffer.
    ///
    /// If `true`, audio data is passed as a single buffer with all channels interleaved.
    ///
    /// If `false`, audio data is passed as an array of pointers to separate buffers, one buffer
    /// for each channel.
    pub is_interleaved: bool,
    /// Sample format of the audio data provided to/by the device.
    pub sample_format: SampleFormat,
}

/// The C API's `PaStreamParameters`, without its host API specific stream info (which this
/// library always leaves null).
#[derive(Copy, Clone, PartialEq, Eq, Debug, Structural)]
pub struct PaStreamParameters {
    /// The device value of the C API
    pub device: i32,
    /// The number of channels
    pub channel_count: i32,
    /// The `PaSampleFormat` bits
    pub sample_format: u64,
    /// The bit pattern of the suggested latency (in seconds)
    pub suggested_latency_bits: u64,
}

impl Parameters {
    /// Construct a new **Parameters**.
    pub fn new(
        device: DeviceIndex,
        channel_count: i32,
        is_interleaved: bool,
        suggested_latency_bits: u64,
        sample_format: SampleFormat,
    ) -> (r: Self)
        ensures
            r == (Parameters {
                device: DeviceKind::Index(device),
                channel_count,
                suggested_latency_bits,
                is_interleaved,
                sample_format,
            }),
    {
        Self::new_internal(
            device.into(),
            channel_count,
            is_interleaved,
            suggested_latency_bits,
            sample_format,
        )
    }

    /// The same as **Parameters::new**, but the device(s) to be used are specified in the host
    /// api specific stream info structure.
    pub fn host_api_specific_device(
        channel_count: i32,
        is_interleaved: bool,
        suggested_latency_bits: u64,
        sample_format: SampleFormat,
    ) -> (r: Self)
        ensures
            r == (Parameters {
                device: DeviceKind::UseHostApiSpecificDeviceSpecification,
                channel_count,
                suggested_latency_bits,
                is_interleaved,
                sample_format,
            }),
    {
        let kind = DeviceKind::UseHostApiSpecificDeviceSpecification;
        Self::new_internal(kind, channel_count, is_interleaved, suggested_latency_bits, sample_format)
    }

    fn new_internal(
        device_kind: DeviceKind,
        channel_count: i32,
        is_interleaved: bool,
        suggested_latency_bits: u64,
        sample_format: SampleFormat,
    ) -> (r: Self)
        ensures
            r == (Parameters {
                device: device_kind,
                channel_count,
                suggested_latency_bits,
                is_interleaved,
                sample_format,
            }),
    {
        Parameters {
            device: device_kind,
            channel_count: channel_count,
            is_interleaved: is_interleaved,
            suggested_latency_bits: suggested_latency_bits,
            sample_format: sample_format,
        }
    }

    /// Converts the given C parameters into their respective **Parameters**.
    ///
    /// Returns `None` if the sample format read from the C parameters differs from
    /// `sample_format`, the format of the samples the caller works with.
    ///
    /// Returns `None` if the `device` index is neither a valid index or a
    /// `UseHostApiSpecificDeviceSpecification` flag (`paUseHostApiSpecificDeviceSpecification`,
    /// `-2`).
    pub fn from_c_params(c_params: PaStreamParameters, sample_format: SampleFormat) -> (r: Option<
        Self,
    >)
        ensures
            r == params_of_c(c_params, sample_format),
    {
        let sample_format_flags = SampleFormatFlags::from_bits_or_empty(c_params.sample_format);
        let is_interleaved = !sample_format_flags.contains(SampleFormatFlags::non_interleaved());
        let c_sample_format = SampleFormat::from_flags(
            SampleFormatFlags::from_bits_or_empty(c_params.sample_format),
        );
        if sample_format != c_sample_format {
            return None;
        }
        let device = if c_params.device >= 0 {
            DeviceIndex(c_params.device as u32).into()
        } else if c_params.device == PA_USE_HOST_API_SPECIFIC_DEVICE_SPECIFICATION {
            DeviceKind::UseHostApiSpecificDeviceSpecification
        } else {
            return None;
        };
        Some(
            Parameters {
                device: device,
                channel_count: c_params.channel_count,
                suggested_latency_bits: c_params.suggested_latency_bits,
                is_interleaved: is_interleaved,
                sample_format: sample_format,
            },
        )
    }
}

/// The `PaSampleFormat` bits of a set of parameters: the format's flag, with the
/// non-interleaved flag added when the audio is not interleaved.
pub open spec fn c_sample_format_of(params: Parameters) -> u64 {
    if params.is_interleaved {
        flags_of_format(params.sample_format)
    } else {
        flags_of_format(params.sample_format) | PA_NON_INTERLEAVED
    }
}

/// The C encoding of a set of parameters.
pub open spec fn c_params_of(params: Parameters) -> PaStreamParameters {
    PaStreamParameters {
        device: c_device_of_kind(params.device),
        channel_count: params.channel_count,
        sample_format: c_sample_format_of(params),
        suggested_latency_bits: params.suggested_latency_bits,
    }
}

/// The parameters read from C parameters by a caller working with samples of `format`: `None`
/// when the sample format read from the C bits (an undefined bit making them read as no flags)
/// is not `format`, or when the device value is negative and not
/// `paUseHostApiSpecificDeviceSpecification` (`-2`), which reads as the host API specific device.
pub open spec fn params_of_c(c_params: PaStreamParameters, format: SampleFormat) -> Option<
    Parameters,
> {
    let bits = if is_sample_format_bits(c_params.sample_format) {
        c_params.sample_format
    } else {
        0
    };
    if format_of_flags(bits) != format {
        None
    } else if c_params.device >= 0 {
        Some(
            Parameters {
                device: DeviceKind::Index(DeviceIndex(c_params.device as u32)),
                channel_count: c_params.channel_count,
                suggested_latency_bits: c_params.suggested_latency_bits,
                is_interleaved: !has_flag(bits, PA_NON_INTERLEAVED),
                sample_format: format,
            },
        )
    } else if c_params.device == PA_USE_HOST_API_SPECIFIC_DEVICE_SPECIFICATION {
        Some(
            Parameters {
                device: DeviceKind::UseHostApiSpecificDeviceSpecification,
                channel_count: c_params.channel_count,
                suggested_latency_bits: c_params.suggested_latency_bits,
                is_interleaved: !has_flag(bits, PA_NON_INTERLEAVED),
                sample_format: format,
            },
        )
    } else {
        None
    }
}

impl From<Parameters> for PaStreamParameters {
    /// Converts the **Parameters** into its matching C parameters.
    fn from(params: Parameters) -> (r: Self) {
        let Parameters { device, channel_count, suggested_latency_bits, is_interleaved, .. } =
            params;
        let sample_format = params.sample_format;
        let mut sample_format_flags = sample_format.flags();
        if !is_interleaved {
            sample_format_flags.insert(SampleFormatFlags::non_interleaved());
        }
        PaStreamParameters {
            device: device.into(),
            channel_count: channel_count,
            sample_format: sample_format_flags.bits(),
            suggested_latency_bits: suggested_latency_bits,
        }
    }
}

impl vstd::std_specs::convert::FromSpecImpl<Parameters> for PaStreamParameters {
    open spec fn obeys_from_spec() -> bool {
        true
    }

    open spec fn from_spec(params: Parameters) -> PaStreamParameters {
        c_params_of(params)
    }
}

/// What the C encoding of parameters holds: the device's index (or
/// `paUseHostApiSpecificDeviceSpecification`, `-2`), the channel count and the latency
/// unchanged, and sample format bits that read back as the format and carry the
/// non-interleaved flag exactly when the audio is not interleaved.
pub proof fn lemma_c_params_fields(params: Parameters)
    ensures
        c_params_of(params).channel_count == params.channel_count,
        c_params_of(params).suggested_latency_bits == params.suggested_latency_bits,
        params.device matches DeviceKind::Index(idx) ==> c_params_of(params).device == idx.0
            as i32,
        params.device is UseHostApiSpecificDeviceSpecification ==> c_params_of(params).device
            == -2,
        is_sample_format_bits(c_params_of(params).sample_format),
        format_of_flags(c_params_of(params).sample_format) == params.sample_format,
        has_flag(c_params_of(params).sample_format, 0x8000_0000) == !params.is_interleaved,
{
    let f = params.sample_format;
    let b = flags_of_format(f);
    lemma_format_flags_roundtrip(f);
    lemma_format_bits_interleaving(b);
}

/// What parameters read from C parameters hold: the C channel count and latency unchanged, the
/// caller's sample format, the device index for a non-negative device value and the host API
/// specific device for `-2`, and interleaving exactly when the non-interleaved flag is absent.
pub proof fn lemma_params_of_c_fields(c_params: PaStreamParameters, format: SampleFormat)
    ensures
        params_of_c(c_params, format) matches Some(p) ==> {
            &&& p.channel_count == c_params.channel_count
            &&& p.suggested_latency_bits == c_params.suggested_latency_bits
            &&& p.sample_format == format
            &&& c_params.device >= 0 ==> p.device == DeviceKind::Index(
                DeviceIndex(c_params.device as u32),
            )
            &&& c_params.device == -2 ==> p.device
                == DeviceKind::UseHostApiSpecificDeviceSpecification
            &&& is_sample_format_bits(c_params.sample_format) ==> p.is_interleaved == !has_flag(
                c_params.sample_format,
                0x8000_0000,
            )
        },
        params_of_c(c_params, format) is None <==> (format_of_flags(
            if is_sample_format_bits(c_params.sample_format) {
                c_params.sample_format
            } else {
                0
            },
        ) != format || (c_params.device < 0 && c_params.device != -2)),
{
}

/// The flag of a format is a defined flag without the non-interleaved bit, and adding that bit
/// keeps it defined and sets it.
proof fn lemma_format_bits_interleaving(b: u64)
    requires
        b == 0u64 || b == 1u64 || b == 2u64 || b == 4u64 || b == 8u64 || b == 0x10u64 || b
            == 0x20u64 || b == 0x10000u64,
    ensures
        b & 0x8001_003Fu64 == b,
        b & 0x8000_0000u64 == 0u64,
        (b | 0x8000_0000u64) & 0x8001_003Fu64 == (b | 0x8000_0000u64),
        (b | 0x8000_0000u64) & 0x8000_0000u64 == 0x8000_0000u64,
{
    assert((b == 0u64 || b == 1u64 || b == 2u64 || b == 4u64 || b == 8u64 || b == 0x10u64 || b
        == 0x20u64 || b == 0x10000u64) ==> (b & 0x8001_003Fu64 == b && b & 0x8000_0000u64 == 0u64
        && (b | 0x8000_0000u64) & 0x8001_003Fu64 == (b | 0x8000_0000u64) && (b | 0x8000_0000u64)
        & 0x8000_0000u64 == 0x8000_0000u64)) by (bit_vector);
}

/// Reading back the C encoding of parameters gives the same parameters, for the host API specific
/// device and for every device index that fits in a C `int`.
pub proof fn lemma_params_roundtrip(params: Parameters)
    requires
        params.device matches DeviceKind::Index(idx) ==> idx.0 <= i32::MAX,
    ensures
        params_of_c(c_params_of(params), params.sample_format) == Some(params),
{
    lemma_c_params_fields(params);
    lemma_format_bits_interleaving(flags_of_format(params.sample_format));
    let ghost d = match params.device {
        DeviceKind::Index(idx) => idx,
        DeviceKind::UseHostApiSpecificDeviceSpecification => DeviceIndex(0),
    };
    assert((d.0 as i32) as u32 == d.0);
}

/// The number of samples in an interleaved buffer of `frames` frames of `channels` channels,
/// which must fit in a `u32`.
pub fn interleaved_sample_count(frames: u32, channels: i32) -> (r: usize)
    requires
        frames * (channels as u32) <= u32::MAX,
    ensures
        r == frames * (channels as u32),
{
    (frames * channels as u32) as usize
}

/// The number of bytes in a buffer of `frames` frames of `channels` channels of samples of
/// `sample_bytes` bytes each; the channel count is read as a `usize`.
pub fn buffer_byte_count(sample_bytes: usize, frames: u32, channels: i32) -> (r: usize)
    requires
        sample_bytes * (frames as usize) <= usize::MAX,
        sample_bytes * (frames as usize) * (#[verifier::truncate] (channels as usize)) <= usize::MAX,
    ensures
        r == sample_bytes * (frames as usize) * (#[verifier::truncate] (channels as usize)),
{
    let n_frames = frames as usize;
    let n_channels = #[verifier::truncate] (channels as usize);
    sample_bytes * n_frames * n_channels
}

/// The number of samples passed to a stream callback for `frame_count` frames of `channels`
/// channels; the channel count is read as a `usize`.
pub fn callback_sample_count(channels: i32, frame_count: u64) -> (r: usize)
    requires
        (#[verifier::truncate] (channels as usize)) * (frame_count as usize) <= usize::MAX,
        frame_count <= usize::MAX,
    ensures
        r == (#[verifier::truncate] (channels as usize)) * (frame_count as usize),
{
    (#[verifier::truncate] (channels as usize)) * frame_count as usize
}

} // verus!
