//! The PortAudio error type: the error codes returned by the PortAudio C API, and their
//! decoding into **Error** values.

use vstd::prelude::*;

verus! {

/// Error codes returned by PortAudio functions.
///
/// Variants are listed in ascending order of their PortAudio error code, so that the derived
/// ordering agrees with the ordering of the codes.
#[derive(Copy, Clone, PartialEq, Eq, PartialOrd, Debug, Structural)]
pub enum Error {
    /// Portaudio not initialized
    NotInitialized,
    /// Unanticipated error from the host
    UnanticipatedHostError,
    /// Invalid channel count
    InvalidChannelCount,
    /// Invalid sample rate
    InvalidSampleRate,
    /// Invalid Device
    InvalidDevice,
    /// Invalid Flag
    InvalidFlag,
    /// The Sample format is not supported
    SampleFormatNotSupported,
    /// Input device not compatible with output device
    BadIODeviceCombination,
    /// Memory insufficient
    InsufficientMemory,
    /// The buffer is too big
    BufferTooBig,
    /// The buffer is too small
    BufferTooSmall,
    /// Invalid callback
    NullCallback,
    /// Invalid Stream
    BadStreamPtr,
    /// Time out
    TimedOut,
    /// Portaudio internal error
    InternalError,
    /// Device unavailable
    DeviceUnavailable,
    /// Stream info not compatible with the host
    IncompatibleHostApiSpecificStreamInfo,
    /// The stream is stopped
    StreamIsStopped,
    /// The stream is not stopped
    StreamIsNotStopped,
    /// The input stream has overflowed
    InputOverflowed,
    /// The output has underflowed
    OutputUnderflowed,
    /// The host API is not found by Portaudio
    HostApiNotFound,
    /// The host API is invalid
    InvalidHostApi,
    /// Portaudio cannot read from the callback stream
    CanNotReadFromACallbackStream,
    /// Portaudio cannot write to the callback stream
    CanNotWriteToACallbackStream,
    /// Portaudio cannot read from an output only stream
    CanNotReadFromAnOutputOnlyStream,
    /// Portaudio cannot write to an input only stream
    CanNotWriteToAnInputOnlyStream,
    /// The stream is not compatible with the host API
    IncompatibleStreamHostApi,
    /// Invalid buffer
    BadBufferPtr,
    /// No audio devices
    NoDevice,
    /// No Error
    NoError,
}

/// The `paNoError` code.
pub const PA_NO_ERROR: i32 = 0;

/// The `paNoDevice` value, also used as the "no devices" error code.
pub const PA_NO_DEVICE: i32 = -1;

/// The `paNotInitialized` code: the first code of the PortAudio error range.
pub const PA_NOT_INITIALIZED: i32 = -10000;

/// The PortAudio C error code of each **Error**.
pub open spec fn code_of(e: Error) -> int {
    match e {
        Error::NoError => 0,
        Error::NoDevice => -1,
        Error::NotInitialized => -10000,
        Error::UnanticipatedHostError => -9999,
        Error::InvalidChannelCount => -9998,
        Error::InvalidSampleRate => -9997,
        Error::InvalidDevice => -9996,
        Error::InvalidFlag => -9995,
        Error::SampleFormatNotSupported => -9994,
        Error::BadIODeviceCombination => -9993,
        Error::InsufficientMemory => -9992,
        Error::BufferTooBig => -9991,
        Error::BufferTooSmall => -9990,
        Error::NullCallback => -9989,
        Error::BadStreamPtr => -9988,
        Error::TimedOut => -9987,
        Error::InternalError => -9986,
        Error::DeviceUnavailable => -9985,
        Error::IncompatibleHostApiSpecificStreamInfo => -9984,
        Error::StreamIsStopped => -9983,
        Error::StreamIsNotStopped => -9982,
        Error::InputOverflowed => -9981,
        Error::OutputUnderflowed => -9980,
        Error::HostApiNotFound => -9979,
        Error::InvalidHostApi => -9978,
        Error::CanNotReadFromACallbackStream => -9977,
        Error::CanNotWriteToACallbackStream => -9976,
        Error::CanNotReadFromAnOutputOnlyStream => -9975,
        Error::CanNotWriteToAnInputOnlyStream => -9974,
        Error::IncompatibleStreamHostApi => -9973,
        Error::BadBufferPtr => -9972,
    }
}

/// `n` is the code of some **Error**: `0`, `-1`, or in the range `-10000..=-9972`.
pub open spec fn is_error_code(n: int) -> bool {
    n == 0 || n == -1 || (-10000 <= n && n <= -9972)
}

/// The **Error** whose code is `n`, if there is one.
pub open spec fn error_of_code(n: int) -> Option<Error> {
    if is_error_code(n) {
        Some(choose|e: Error| code_of(e) == n)
    } else {
        None
    }
}

/// Every code in the PortAudio error range is the code of some **Error**.
proof fn lemma_code_has_error(n: int)
    requires
        is_error_code(n),
    ensures
        exists|e: Error| code_of(e) == n,
{
    if n == 0 { assert(code_of(Error::NoError) == n); }
    else if n == -1 { assert(code_of(Error::NoDevice) == n); }
    else if n == -10000 { assert(code_of(Error::NotInitialized) == n); }
    else if n == -9999 { assert(code_of(Error::UnanticipatedHostError) == n); }
    else if n == -9998 { assert(code_of(Error::InvalidChannelCount) == n); }
    else if n == -9997 { assert(code_of(Error::InvalidSampleRate) == n); }
    else if n == -9996 { assert(code_of(Error::InvalidDevice) == n); }
    else if n == -9995 { assert(code_of(Error::InvalidFlag) == n); }
    else if n == -9994 { assert(code_of(Error::SampleFormatNotSupported) == n); }
    else if n == -9993 { assert(code_of(Error::BadIODeviceCombination) == n); }
    else if n == -9992 { assert(code_of(Error::InsufficientMemory) == n); }
    else if n == -9991 { assert(code_of(Error::BufferTooBig) == n); }
    else if n == -9990 { assert(code_of(Error::BufferTooSmall) == n); }
    else if n == -9989 { assert(code_of(Error::NullCallback) == n); }
    else if n == -9988 { assert(code_of(Error::BadStreamPtr) == n); }
    else if n == -9987 { assert(code_of(Error::TimedOut) == n); }
    else if n == -9986 { assert(code_of(Error::InternalError) == n); }
    else if n == -9985 { assert(code_of(Error::DeviceUnavailable) == n); }
    else if n == -9984 { assert(code_of(Error::IncompatibleHostApiSpecificStreamInfo) == n); }
    else if n == -9983 { assert(code_of(Error::StreamIsStopped) == n); }
    else if n == -9982 { assert(code_of(Error::StreamIsNotStopped) == n); }
    else if n == -9981 { assert(code_of(Error::InputOverflowed) == n); }
    else if n == -9980 { assert(code_of(Error::OutputUnderflowed) == n); }
    else if n == -9979 { assert(code_of(Error::HostApiNotFound) == n); }
    else if n == -9978 { assert(code_of(Error::InvalidHostApi) == n); }
    else if n == -9977 { assert(code_of(Error::CanNotReadFromACallbackStream) == n); }
    else if n == -9976 { assert(code_of(Error::CanNotWriteToACallbackStream) == n); }
    else if n == -9975 { assert(code_of(Error::CanNotReadFromAnOutputOnlyStream) == n); }
    else if n == -9974 { assert(code_of(Error::CanNotWriteToAnInputOnlyStream) == n); }
    else if n == -9973 { assert(code_of(Error::IncompatibleStreamHostApi) == n); }
    else { assert(code_of(Error::BadBufferPtr) == n); }
}

/// Decoding a code gives back the **Error** it encodes, and only codes of errors decode.
pub proof fn lemma_error_code_roundtrip(e: Error, n: int)
    ensures
        is_error_code(code_of(e)),
        error_of_code(code_of(e)) == Some(e),
        error_of_code(n) matches Some(d) ==> code_of(d) == n,
        error_of_code(n) is None <==> !is_error_code(n),
{
    let c = code_of(e);
    lemma_code_has_error(c);
    let d = choose|d: Error| code_of(d) == c;
    assert(code_of(d) == c);
    lemma_code_injective(d, e);
    if is_error_code(n) {
        lemma_code_has_error(n);
    }
}

/// No two distinct errors share a code.
pub proof fn lemma_code_injective(a: Error, b: Error)
    requires
        code_of(a) == code_of(b),
    ensures
        a == b,
{
}


/// The text each **Error** is displayed as: the name of its variant.
pub open spec fn display_text_of(e: Error) -> Seq<char> {
    match e {
        Error::NotInitialized => "NotInitialized"@,
        Error::UnanticipatedHostError => "UnanticipatedHostError"@,
        Error::InvalidChannelCount => "InvalidChannelCount"@,
        Error::InvalidSampleRate => "InvalidSampleRate"@,
        Error::InvalidDevice => "InvalidDevice"@,
        Error::InvalidFlag => "InvalidFlag"@,
        Error::SampleFormatNotSupported => "SampleFormatNotSupported"@,
        Error::BadIODeviceCombination => "BadIODeviceCombination"@,
        Error::InsufficientMemory => "InsufficientMemory"@,
        Error::BufferTooBig => "BufferTooBig"@,
        Error::BufferTooSmall => "BufferTooSmall"@,
        Error::NullCallback => "NullCallback"@,
        Error::BadStreamPtr => "BadStreamPtr"@,
        Error::TimedOut => "TimedOut"@,
        Error::InternalError => "InternalError"@,
        Error::DeviceUnavailable => "DeviceUnavailable"@,
        Error::IncompatibleHostApiSpecificStreamInfo => "IncompatibleHostApiSpecificStreamInfo"@,
        Error::StreamIsStopped => "StreamIsStopped"@,
        Error::StreamIsNotStopped => "StreamIsNotStopped"@,
        Error::InputOverflowed => "InputOverflowed"@,
        Error::OutputUnderflowed => "OutputUnderflowed"@,
        Error::HostApiNotFound => "HostApiNotFound"@,
        Error::InvalidHostApi => "InvalidHostApi"@,
        Error::CanNotReadFromACallbackStream => "CanNotReadFromACallbackStream"@,
        Error::CanNotWriteToACallbackStream => "CanNotWriteToACallbackStream"@,
        Error::CanNotReadFromAnOutputOnlyStream => "CanNotReadFromAnOutputOnlyStream"@,
        Error::CanNotWriteToAnInputOnlyStream => "CanNotWriteToAnInputOnlyStream"@,
        Error::IncompatibleStreamHostApi => "IncompatibleStreamHostApi"@,
        Error::BadBufferPtr => "BadBufferPtr"@,
        Error::NoDevice => "NoDevice"@,
        Error::NoError => "NoError"@,
    }
}

/// The human-readable description of each **Error**.
pub open spec fn description_of(e: Error) -> Seq<char> {
    match e {
        Error::NoError => "No Error"@,
        Error::NoDevice => "No Device"@,
        Error::NotInitialized => "PortAudio not initialized"@,
        Error::UnanticipatedHostError => "Unanticipated error from the host"@,
        Error::InvalidChannelCount => "Invalid number of channels"@,
        Error::InvalidSampleRate => "Invalid sample rate"@,
        Error::InvalidDevice => "Invalid device"@,
        Error::InvalidFlag => "Invalid flag"@,
        Error::SampleFormatNotSupported => "Sample format is not supported"@,
        Error::BadIODeviceCombination => "Input device not compatible with output device"@,
        Error::InsufficientMemory => "Memory insufficient"@,
        Error::BufferTooBig => "The buffer is too big"@,
        Error::BufferTooSmall => "The buffer is too small"@,
        Error::NullCallback => "Invalid callback"@,
        Error::BadStreamPtr => "Invalid stream"@,
        Error::TimedOut => "Time out"@,
        Error::InternalError => "Portaudio internal error"@,
        Error::DeviceUnavailable => "Device unavailable"@,
        Error::IncompatibleHostApiSpecificStreamInfo => "Stream info not compatible with the host"@,
        Error::StreamIsStopped => "The stream is stopped"@,
        Error::StreamIsNotStopped => "The stream is not stopped"@,
        Error::InputOverflowed => "The input stream has overflowed"@,
        Error::OutputUnderflowed => "The output stream has underflowed"@,
        Error::HostApiNotFound => "The host api is not found by Portaudio"@,
        Error::InvalidHostApi => "The host API is invalid"@,
        Error::CanNotReadFromACallbackStream => "Portaudio cannot read from the callback stream"@,
        Error::CanNotWriteToACallbackStream => "Portaudio cannot write to the callback stream"@,
        Error::CanNotReadFromAnOutputOnlyStream => "Portaudio cannot read from an output only stream"@,
        Error::CanNotWriteToAnInputOnlyStream => "Portaudio cannot write to an input only stream"@,
        Error::IncompatibleStreamHostApi => "The stream is not compatible with the host API"@,
        Error::BadBufferPtr => "Invalid buffer"@,
    }
}

impl Error {

    /// The text the error is displayed as: the name of its variant.
    pub fn display_text(&self) -> (r: &'static str)
        ensures
            r@ == display_text_of(*self),
    {
        match *self {
            Error::NotInitialized => "NotInitialized",
            Error::UnanticipatedHostError => "UnanticipatedHostError",
            Error::InvalidChannelCount => "InvalidChannelCount",
            Error::InvalidSampleRate => "InvalidSampleRate",
            Error::InvalidDevice => "InvalidDevice",
            Error::InvalidFlag => "InvalidFlag",
            Error::SampleFormatNotSupported => "SampleFormatNotSupported",
            Error::BadIODeviceCombination => "BadIODeviceCombination",
            Error::InsufficientMemory => "InsufficientMemory",
            Error::BufferTooBig => "BufferTooBig",
            Error::BufferTooSmall => "BufferTooSmall",
            Error::NullCallback => "NullCallback",
            Error::BadStreamPtr => "BadStreamPtr",
            Error::TimedOut => "TimedOut",
            Error::InternalError => "InternalError",
            Error::DeviceUnavailable => "DeviceUnavailable",
            Error::IncompatibleHostApiSpecificStreamInfo => "IncompatibleHostApiSpecificStreamInfo",
            Error::StreamIsStopped => "StreamIsStopped",
            Error::StreamIsNotStopped => "StreamIsNotStopped",
            Error::InputOverflowed => "InputOverflowed",
            Error::OutputUnderflowed => "OutputUnderflowed",
            Error::HostApiNotFound => "HostApiNotFound",
            Error::InvalidHostApi => "InvalidHostApi",
            Error::CanNotReadFromACallbackStream => "CanNotReadFromACallbackStream",
            Error::CanNotWriteToACallbackStream => "CanNotWriteToACallbackStream",
            Error::CanNotReadFromAnOutputOnlyStream => "CanNotReadFromAnOutputOnlyStream",
            Error::CanNotWriteToAnInputOnlyStream => "CanNotWriteToAnInputOnlyStream",
            Error::IncompatibleStreamHostApi => "IncompatibleStreamHostApi",
            Error::BadBufferPtr => "BadBufferPtr",
            Error::NoDevice => "NoDevice",
            Error::NoError => "NoError",
        }
    }

    /// A short human-readable description of the error.
    pub fn description(&self) -> (r: &'static str)
        ensures
            r@ == description_of(*self),
    {
        match *self {
            Error::NoError => "No Error",
            Error::NoDevice => "No Device",
            Error::NotInitialized => "PortAudio not initialized",
            Error::UnanticipatedHostError => "Unanticipated error from the host",
            Error::InvalidChannelCount => "Invalid number of channels",
            Error::InvalidSampleRate => "Invalid sample rate",
            Error::InvalidDevice => "Invalid device",
            Error::InvalidFlag => "Invalid flag",
            Error::SampleFormatNotSupported => "Sample format is not supported",
            Error::BadIODeviceCombination => "Input device not compatible with output device",
            Error::InsufficientMemory => "Memory insufficient",
            Error::BufferTooBig => "The buffer is too big",
            Error::BufferTooSmall => "The buffer is too small",
            Error::NullCallback => "Invalid callback",
            Error::BadStreamPtr => "Invalid stream",
            Error::TimedOut => "Time out",
            Error::InternalError => "Portaudio internal error",
            Error::DeviceUnavailable => "Device unavailable",
            Error::IncompatibleHostApiSpecificStreamInfo => "Stream info not compatible with the host",
            Error::StreamIsStopped => "The stream is stopped",
            Error::StreamIsNotStopped => "The stream is not stopped",
            Error::InputOverflowed => "The input stream has overflowed",
            Error::OutputUnderflowed => "The output stream has underflowed",
            Error::HostApiNotFound => "The host api is not found by Portaudio",
            Error::InvalidHostApi => "The host API is invalid",
            Error::CanNotReadFromACallbackStream => "Portaudio cannot read from the callback stream",
            Error::CanNotWriteToACallbackStream => "Portaudio cannot write to the callback stream",
            Error::CanNotReadFromAnOutputOnlyStream => "Portaudio cannot read from an output only stream",
            Error::CanNotWriteToAnInputOnlyStream => "Portaudio cannot write to an input only stream",
            Error::IncompatibleStreamHostApi => "The stream is not compatible with the host API",
            Error::BadBufferPtr => "Invalid buffer",
        }
    }

    /// The PortAudio C error code of this **Error**.
    pub fn code(self) -> (r: i32)
        ensures
            r == code_of(self),
    {
        match self {
            Error::NoError => 0,
            Error::NoDevice => -1,
            Error::NotInitialized => -10000,
            Error::UnanticipatedHostError => -9999,
            Error::InvalidChannelCount => -9998,
            Error::InvalidSampleRate => -9997,
            Error::InvalidDevice => -9996,
            Error::InvalidFlag => -9995,
            Error::SampleFormatNotSupported => -9994,
            Error::BadIODeviceCombination => -9993,
            Error::InsufficientMemory => -9992,
            Error::BufferTooBig => -9991,
            Error::BufferTooSmall => -9990,
            Error::NullCallback => -9989,
            Error::BadStreamPtr => -9988,
            Error::TimedOut => -9987,
            Error::InternalError => -9986,
            Error::DeviceUnavailable => -9985,
            Error::IncompatibleHostApiSpecificStreamInfo => -9984,
            Error::StreamIsStopped => -9983,
            Error::StreamIsNotStopped => -9982,
            Error::InputOverflowed => -9981,
            Error::OutputUnderflowed => -9980,
            Error::HostApiNotFound => -9979,
            Error::InvalidHostApi => -9978,
            Error::CanNotReadFromACallbackStream => -9977,
            Error::CanNotWriteToACallbackStream => -9976,
            Error::CanNotReadFromAnOutputOnlyStream => -9975,
            Error::CanNotWriteToAnInputOnlyStream => -9974,
            Error::IncompatibleStreamHostApi => -9973,
            Error::BadBufferPtr => -9972,
        }
    }

    /// Decode a PortAudio error code given as an `i64`.
    ///
    /// Returns `None` if `n` is not the code of any **Error**.
    pub fn from_i64(n: i64) -> (r: Option<Error>)
        ensures
            r == error_of_code(n as int),
            r is Some <==> is_error_code(n as int),
            r matches Some(e) ==> code_of(e) == n,
    {
        proof {
            lemma_error_code_roundtrip(Error::NoError, n as int);
        }
        let r = if n == 0 {
            Some(Error::NoError)
        } else if n == -1 {
            Some(Error::NoDevice)
        } else if n < -10000 || n > -9972 {
            None
        } else {
            Some(match n + 10000 {
                0 => Error::NotInitialized,
                1 => Error::UnanticipatedHostError,
                2 => Error::InvalidChannelCount,
                3 => Error::InvalidSampleRate,
                4 => Error::InvalidDevice,
                5 => Error::InvalidFlag,
                6 => Error::SampleFormatNotSupported,
                7 => Error::BadIODeviceCombination,
                8 => Error::InsufficientMemory,
                9 => Error::BufferTooBig,
                10 => Error::BufferTooSmall,
                11 => Error::NullCallback,
                12 => Error::BadStreamPtr,
                13 => Error::TimedOut,
                14 => Error::InternalError,
                15 => Error::DeviceUnavailable,
                16 => Error::IncompatibleHostApiSpecificStreamInfo,
                17 => Error::StreamIsStopped,
                18 => Error::StreamIsNotStopped,
                19 => Error::InputOverflowed,
                20 => Error::OutputUnderflowed,
                21 => Error::HostApiNotFound,
                22 => Error::InvalidHostApi,
                23 => Error::CanNotReadFromACallbackStream,
                24 => Error::CanNotWriteToACallbackStream,
                25 => Error::CanNotReadFromAnOutputOnlyStream,
                26 => Error::CanNotWriteToAnInputOnlyStream,
                27 => Error::IncompatibleStreamHostApi,
                _ => Error::BadBufferPtr,
            })
        };
        proof {
            if let Some(e) = r {
                lemma_error_code_roundtrip(e, n as int);
            }
        }
        r
    }

    /// Decode a PortAudio error code given as an `i32`.
    ///
    /// Returns `None` if `n` is not the code of any **Error**.
    pub fn from_i32(n: i32) -> (r: Option<Error>)
        ensures
            r == error_of_code(n as int),
            r is Some <==> is_error_code(n as int),
            r matches Some(e) ==> code_of(e) == n,
    {
        Error::from_i64(n as i64)
    }
}

/// The outcome of a PortAudio call that reports only success or an error code: `Ok(())` for
/// `paNoError`, otherwise the decoded **Error**.
pub open spec fn result_of_code(code: int) -> Result<(), Error> {
    if code == 0 {
        Ok(())
    } else {
        Err(error_of_code(code).unwrap())
    }
}

/// Every **Error** has the code that PortAudio's `PaErrorCode` gives it (`paNoError` is `0`,
/// `paNoDevice` is `-1`, and `paNotInitialized` through `paBadBufferPtr` run from `-10000` to
/// `-9972`), and decoding a code gives the error with that code.
pub proof fn lemma_portaudio_error_codes()
    ensures
        code_of(Error::NoError) == 0,
        error_of_code(0) == Some(Error::NoError),
        code_of(Error::NoDevice) == -1,
        error_of_code(-1) == Some(Error::NoDevice),
        code_of(Error::NotInitialized) == -10000,
        error_of_code(-10000) == Some(Error::NotInitialized),
        code_of(Error::UnanticipatedHostError) == -9999,
        error_of_code(-9999) == Some(Error::UnanticipatedHostError),
        code_of(Error::InvalidChannelCount) == -9998,
        error_of_code(-9998) == Some(Error::InvalidChannelCount),
        code_of(Error::InvalidSampleRate) == -9997,
        error_of_code(-9997) == Some(Error::InvalidSampleRate),
        code_of(Error::InvalidDevice) == -9996,
        error_of_code(-9996) == Some(Error::InvalidDevice),
        code_of(Error::InvalidFlag) == -9995,
        error_of_code(-9995) == Some(Error::InvalidFlag),
        code_of(Error::SampleFormatNotSupported) == -9994,
        error_of_code(-9994) == Some(Error::SampleFormatNotSupported),
        code_of(Error::BadIODeviceCombination) == -9993,
        error_of_code(-9993) == Some(Error::BadIODeviceCombination),
        code_of(Error::InsufficientMemory) == -9992,
        error_of_code(-9992) == Some(Error::InsufficientMemory),
        code_of(Error::BufferTooBig) == -9991,
        error_of_code(-9991) == Some(Error::BufferTooBig),
        code_of(Error::BufferTooSmall) == -9990,
        error_of_code(-9990) == Some(Error::BufferTooSmall),
        code_of(Error::NullCallback) == -9989,
        error_of_code(-9989) == Some(Error::NullCallback),
        code_of(Error::BadStreamPtr) == -9988,
        error_of_code(-9988) == Some(Error::BadStreamPtr),
        code_of(Error::TimedOut) == -9987,
        error_of_code(-9987) == Some(Error::TimedOut),
        code_of(Error::InternalError) == -9986,
        error_of_code(-9986) == Some(Error::InternalError),
        code_of(Error::DeviceUnavailable) == -9985,
        error_of_code(-9985) == Some(Error::DeviceUnavailable),
        code_of(Error::IncompatibleHostApiSpecificStreamInfo) == -9984,
        error_of_code(-9984) == Some(Error::IncompatibleHostApiSpecificStreamInfo),
        code_of(Error::StreamIsStopped) == -9983,
        error_of_code(-9983) == Some(Error::StreamIsStopped),
        code_of(Error::StreamIsNotStopped) == -9982,
        error_of_code(-9982) == Some(Error::StreamIsNotStopped),
        code_of(Error::InputOverflowed) == -9981,
        error_of_code(-9981) == Some(Error::InputOverflowed),
        code_of(Error::OutputUnderflowed) == -9980,
        error_of_code(-9980) == Some(Error::OutputUnderflowed),
        code_of(Error::HostApiNotFound) == -9979,
        error_of_code(-9979) == Some(Error::HostApiNotFound),
        code_of(Error::InvalidHostApi) == -9978,
        error_of_code(-9978) == Some(Error::InvalidHostApi),
        code_of(Error::CanNotReadFromACallbackStream) == -9977,
        error_of_code(-9977) == Some(Error::CanNotReadFromACallbackStream),
        code_of(Error::CanNotWriteToACallbackStream) == -9976,
        error_of_code(-9976) == Some(Error::CanNotWriteToACallbackStream),
        code_of(Error::CanNotReadFromAnOutputOnlyStream) == -9975,
        error_of_code(-9975) == Some(Error::CanNotReadFromAnOutputOnlyStream),
        code_of(Error::CanNotWriteToAnInputOnlyStream) == -9974,
        error_of_code(-9974) == Some(Error::CanNotWriteToAnInputOnlyStream),
        code_of(Error::IncompatibleStreamHostApi) == -9973,
        error_of_code(-9973) == Some(Error::IncompatibleStreamHostApi),
        code_of(Error::BadBufferPtr) == -9972,
        error_of_code(-9972) == Some(Error::BadBufferPtr),
{
    lemma_error_code_roundtrip(Error::NoError, 0);
    lemma_error_code_roundtrip(Error::NoDevice, -1);
    lemma_error_code_roundtrip(Error::NotInitialized, -10000);
    lemma_error_code_roundtrip(Error::UnanticipatedHostError, -9999);
    lemma_error_code_roundtrip(Error::InvalidChannelCount, -9998);
    lemma_error_code_roundtrip(Error::InvalidSampleRate, -9997);
    lemma_error_code_roundtrip(Error::InvalidDevice, -9996);
    lemma_error_code_roundtrip(Error::InvalidFlag, -9995);
    lemma_error_code_roundtrip(Error::SampleFormatNotSupported, -9994);
    lemma_error_code_roundtrip(Error::BadIODeviceCombination, -9993);
    lemma_error_code_roundtrip(Error::InsufficientMemory, -9992);
    lemma_error_code_roundtrip(Error::BufferTooBig, -9991);
    lemma_error_code_roundtrip(Error::BufferTooSmall, -9990);
    lemma_error_code_roundtrip(Error::NullCallback, -9989);
    lemma_error_code_roundtrip(Error::BadStreamPtr, -9988);
    lemma_error_code_roundtrip(Error::TimedOut, -9987);
    lemma_error_code_roundtrip(Error::InternalError, -9986);
    lemma_error_code_roundtrip(Error::DeviceUnavailable, -9985);
    lemma_error_code_roundtrip(Error::IncompatibleHostApiSpecificStreamInfo, -9984);
    lemma_error_code_roundtrip(Error::StreamIsStopped, -9983);
    lemma_error_code_roundtrip(Error::StreamIsNotStopped, -9982);
    lemma_error_code_roundtrip(Error::InputOverflowed, -9981);
    lemma_error_code_roundtrip(Error::OutputUnderflowed, -9980);
    lemma_error_code_roundtrip(Error::HostApiNotFound, -9979);
    lemma_error_code_roundtrip(Error::InvalidHostApi, -9978);
    lemma_error_code_roundtrip(Error::CanNotReadFromACallbackStream, -9977);
    lemma_error_code_roundtrip(Error::CanNotWriteToACallbackStream, -9976);
    lemma_error_code_roundtrip(Error::CanNotReadFromAnOutputOnlyStream, -9975);
    lemma_error_code_roundtrip(Error::CanNotWriteToAnInputOnlyStream, -9974);
    lemma_error_code_roundtrip(Error::IncompatibleStreamHostApi, -9973);
    lemma_error_code_roundtrip(Error::BadBufferPtr, -9972);
}

/// A status code decodes to success exactly when it is `paNoError` (`0`); any other error code
/// decodes to the error that has it.
pub proof fn lemma_status_code_meaning(code: int)
    requires
        is_error_code(code),
    ensures
        code == 0 ==> result_of_code(code) == Ok::<(), Error>(()),
        code != 0 ==> (result_of_code(code) matches Err(e) && code_of(e) == code),
{
    lemma_error_code_roundtrip(Error::NoError, code);
}

/// The status code of an **Error** decodes to that error, except `paNoError`, which decodes to
/// success.
pub proof fn lemma_result_of_error_code(e: Error)
    ensures
        result_of_code(code_of(e)) == if e == Error::NoError {
            Ok::<(), Error>(())
        } else {
            Err::<(), Error>(e)
        },
{
    lemma_error_code_roundtrip(e, code_of(e));
}

/// Decode the status code returned by a PortAudio call.
///
/// Returns `Ok(())` for `paNoError` and `Err` with the decoded **Error** otherwise.
pub fn result_from_code(code: i32) -> (r: Result<(), Error>)
    requires
        is_error_code(code as int),
    ensures
        r == result_of_code(code as int),
        r is Ok <==> code == 0,
        r matches Err(e) ==> code_of(e) == code,
{
    proof {
        lemma_error_code_roundtrip(Error::NoError, code as int);
    }
    let error = Error::from_i32(code).unwrap();
    match error {
        Error::NoError => Ok(()),
        err => Err(err),
    }
}

} // verus!
