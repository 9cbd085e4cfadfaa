//! # rust-portaudio
//!
//! __PortAudio__ bindings for Rust: the logic of the bindings, kept apart from the calls into the
//! PortAudio C library.
//!
//! PortAudio provides a uniform application programming interface (API) across all
//! supported platforms.  You can think of the PortAudio library as a wrapper that
//! converts calls to the PortAudio API into calls to platform-specific native audio
//! APIs.
//!
//! Every PortAudio C function reports its outcome through a plain value: a count, an index, a
//! status code or a structure. The functions and methods of this crate take those values, exactly
//! as the C library returned them, and turn them into the library's types: **Error**s, device
//! and host API indices and information, stream parameters and flags. The caller performs the C
//! call and hands its result over.

#![allow(non_upper_case_globals)]

pub mod cstr;
pub mod error;
pub mod stream;
pub mod types;

pub use error::Error;
pub use stream::{
    callback_flags as stream_callback_flags, flags as stream_flags, Available as StreamAvailable,
    Blocking, CallbackFlags as StreamCallbackFlags, Flags as StreamFlags, Mode,
    PaStreamParameters, Parameters as StreamParameters,
};
pub use types::{
    C_PaHostApiInfo, C_PaHostErrorInfo, DeviceIndex, DeviceKind, Frames, HostApiIndex,
    HostApiInfo, HostApiTypeId, HostErrorInfo, SampleFormat, SampleFormatFlags,
    FRAMES_PER_BUFFER_UNSPECIFIED,
};

use vstd::prelude::*;

use error::{code_of, error_of_code, is_error_code, result_from_code, result_of_code};
use vstd::utf8::{decode_utf8, valid_utf8};

verus! {

/// The value returned by a stream callback.
pub type StreamCallbackResult = i32;

/// The stream callback asks to be called again (`paContinue`).
pub const Continue: StreamCallbackResult = 0;

/// The stream should finish once all buffers generated by the callback have been played
/// (`paComplete`).
pub const Complete: StreamCallbackResult = 1;

/// The stream should finish as soon as possible (`paAbort`).
pub const Abort: StreamCallbackResult = 2;

/// The lifetime of the PortAudio session.
///
/// This is shared between `PortAudio` and its child `Stream`s; it records whether PortAudio has
/// already been terminated manually (via the `PortAudio::terminate` method), which decides
/// whether termination is still owed when the last owner goes away.
#[derive(Debug)]
pub struct Life {
    is_terminated: bool,
}

impl View for Life {
    type V = bool;

    /// Whether PortAudio has been terminated manually.
    closed spec fn view(&self) -> bool {
        self.is_terminated
    }
}

impl Life {
    /// The lifetime of a freshly initialized session, not yet terminated.
    pub fn new() -> (r: Life)
        ensures
            !r@,
    {
        Life { is_terminated: false }
    }

    /// Whether PortAudio has been terminated manually.
    pub fn is_terminated(&self) -> (r: bool)
        ensures
            r == self@,
    {
        self.is_terminated
    }

    /// Record that PortAudio has been terminated manually.
    pub fn mark_terminated(&mut self)
        ensures
            final(self)@,
    {
        self.is_terminated = true;
    }

    /// Whether `Pa_Terminate` must still be called when the session's last owner goes away:
    /// exactly when it has not been terminated manually.
    pub fn terminates_on_drop(&self) -> (r: bool)
        ensures
            r == !self@,
    {
        !self.is_terminated
    }
}

/// A handle on an initialized PortAudio library.
///
/// A **PortAudio** can only be obtained from a successful `Pa_Initialize` (see
/// **PortAudio::new**); its methods read the values returned by the C library's query functions.
#[derive(Debug)]
pub struct PortAudio {
    initialized: (),
}

/// The device count read from the value returned by `Pa_GetDeviceCount`: a non-negative value
/// is the count, `paNoDevice` means there is no device to use (a count of `0`), and any other
/// value is an error code.
pub open spec fn device_count_of_code(n: int) -> Result<u32, Error> {
    if n >= 0 {
        Ok(n as u32)
    } else if n == -1 {
        Ok(0)
    } else {
        Err(error_of_code(n).unwrap())
    }
}

/// The device index read from a value returned by a C function that gives a device index: a
/// non-negative value is the index, and a negative one is an error code.
pub open spec fn device_index_of_code(n: int) -> Result<DeviceIndex, Error> {
    if n >= 0 {
        Ok(DeviceIndex(n as u32))
    } else {
        Err(error_of_code(n).unwrap())
    }
}

/// The host API index read from a value returned by a C function that gives a host API index: a
/// non-negative value is the index (as a **HostApiIndex**), and a negative one is an error code.
pub open spec fn host_api_index_of_code(n: i32) -> Result<HostApiIndex, Error> {
    if n >= 0 {
        Ok(#[verifier::truncate] (n as u16))
    } else {
        Err(error_of_code(n as int).unwrap())
    }
}

/// `n` is a valid value for a C function that returns a count or an index: it is not negative or
/// it is an error code.
pub open spec fn is_index_code(n: int) -> bool {
    n >= 0 || is_error_code(n)
}

/// What the C library's index and count values mean: a non-negative value is the index (or
/// count) itself, and only a negative value is an error; for a count, `paNoDevice` (`-1`) means
/// no devices.
pub proof fn lemma_index_code_meaning(n: i32)
    ensures
        n >= 0 ==> device_index_of_code(n as int) == Ok::<DeviceIndex, Error>(DeviceIndex(n as u32)),
        n >= 0 ==> (device_index_of_code(n as int) matches Ok(d) && d.0 == n),
        n < 0 ==> device_index_of_code(n as int) is Err,
        0 <= n <= u16::MAX ==> host_api_index_of_code(n) == Ok::<HostApiIndex, Error>(
            n as HostApiIndex,
        ),
        n >= 0 ==> (host_api_index_of_code(n) matches Ok(i) && i as int == n % 0x1_0000),
        n < 0 ==> host_api_index_of_code(n) is Err,
        n >= 0 ==> (device_count_of_code(n as int) matches Ok(c) && c == n),
        n == -1 ==> device_count_of_code(n as int) == Ok::<u32, Error>(0),
        n < -1 ==> device_count_of_code(n as int) is Err,
{
    if n >= 0 {
        assert((#[verifier::truncate] (n as u16)) as int == n % 0x1_0000) by (bit_vector)
            requires
                n >= 0;
    }
}

impl PortAudio {
    /// Construct a **PortAudio** instance from the code returned by `Pa_Initialize`, which
    /// initializes internal data structures and prepares underlying host APIs for use.
    ///
    /// Returns the **PortAudio** when initialization succeeded, and the error otherwise.
    pub fn new(initialize_code: i32) -> (r: Result<Self, Error>)
        requires
            is_error_code(initialize_code as int),
        ensures
            r is Ok <==> initialize_code == 0,
            r matches Err(e) ==> code_of(e) == initialize_code,
    {
        match result_from_code(initialize_code) {
            Ok(()) => Ok(PortAudio { initialized: () }),
            Err(err) => Err(err),
        }
    }

    /// Takes ownership of `self` and terminates the PortAudio API: records in the session's
    /// `life` that termination happened, and reads the code returned by `Pa_Terminate`.
    ///
    /// This deallocates all resources allocated by PortAudio since it was constructed.
    pub fn terminate(self, life: &mut Life, terminate_code: i32) -> (r: Result<(), Error>)
        requires
            is_error_code(terminate_code as int),
        ensures
            final(life)@,
            r == result_of_code(terminate_code as int),
    {
        life.mark_terminated();
        result_from_code(terminate_code)
    }

    /// Read the textual description of the current PortAudio build from the bytes of the C
    /// string returned by `Pa_GetVersionText`.
    ///
    /// Returns a `Utf8Error` if the bytes are not valid UTF-8.
    pub fn version_text<'a>(&self, text: &'a [u8]) -> (r: Result<&'a str, std::str::Utf8Error>)
        ensures
            r is Ok <==> valid_utf8(text@),
            r matches Ok(s) ==> s@ == decode_utf8(text@),
    {
        version_text(text)
    }

    /// Read the number of available devices from the value returned by `Pa_GetDeviceCount`.
    ///
    /// The number of available devices may be zero: `paNoDevice` means that there are no
    /// devices available, and reads as a count of `0`.
    pub fn device_count(&self, count_code: i32) -> (r: Result<u32, Error>)
        requires
            is_index_code(count_code as int),
        ensures
            r == device_count_of_code(count_code as int),
            count_code >= 0 ==> r == Ok::<u32, Error>(count_code as u32),
            count_code == -1 ==> r == Ok::<u32, Error>(0),
            count_code < -1 ==> (r matches Err(e) && code_of(e) == count_code),
    {
        if count_code >= 0 {
            Ok(count_code as u32)
        } else if count_code == -1 {
            Ok(0)
        } else {
            Err(Error::from_i32(count_code).unwrap())
        }
    }

    /// Produces an iterator over the **DeviceIndex** of each device, given the value returned by
    /// `Pa_GetDeviceCount`.
    pub fn devices(&self, count_code: i32) -> (r: Result<Devices, Error>)
        requires
            is_index_code(count_code as int),
        ensures
            match device_count_of_code(count_code as int) {
                Ok(n) => r matches Ok(d) && d.total() == n && d.next() == 0,
                Err(e) => r == Err::<Devices, Error>(e),
            },
    {
        let total = match self.device_count(count_code) {
            Ok(n) => n,
            Err(e) => return Err(e),
        };
        Ok(Devices::new(total))
    }

    /// Produces an iterator over the **HostApiIndex** of each available host API, given the
    /// value returned by `Pa_GetHostApiCount`; an error reads as no host APIs.
    pub fn host_apis(&self, count_code: i32) -> (r: HostApis)
        requires
            is_index_code(count_code as int),
        ensures
            r.next() == 0,
            r.total() == match host_api_index_of_code(count_code) {
                Ok(n) => n,
                Err(_) => 0,
            },
    {
        let total = match result_from_host_api_index(count_code) {
            Ok(n) => n,
            Err(_) => 0,
        };
        HostApis::new(total)
    }

    /// Read the information about the last host error encountered from the C structure that
    /// `Pa_GetLastHostErrorInfo` points to.
    pub fn last_host_error_info<'a>(&self, c_error: C_PaHostErrorInfo<'a>) -> (r: HostErrorInfo<
        'a,
    >)
        ensures
            r.code == c_error.error_code,
            r.text@ == cstr::name_of_bytes(c_error.error_text@),
    {
        HostErrorInfo::from_c_error_info(c_error)
    }
}

/// Read the textual description of the current PortAudio build from the bytes of the C string
/// returned by `Pa_GetVersionText`.
///
/// Returns a `Utf8Error` if the bytes are not valid UTF-8.
pub fn version_text<'a>(text: &'a [u8]) -> (r: Result<&'a str, std::str::Utf8Error>)
    ensures
        r is Ok <==> valid_utf8(text@),
        r matches Ok(s) ==> s@ == decode_utf8(text@),
{
    cstr::str_from_utf8(text)
}

/// Read a device index from the value returned by `Pa_GetDefaultInputDevice`,
/// `Pa_GetDefaultOutputDevice` or `Pa_HostApiDeviceIndexToDeviceIndex`.
pub fn device_index_from_code(code: i32) -> (r: Result<DeviceIndex, Error>)
    requires
        is_index_code(code as int),
    ensures
        r == device_index_of_code(code as int),
        code >= 0 ==> r == Ok::<DeviceIndex, Error>(DeviceIndex(code as u32)),
        code < 0 ==> (r matches Err(e) && code_of(e) == code),
{
    if code >= 0 {
        Ok(DeviceIndex(code as u32))
    } else {
        Err(Error::from_i32(code).unwrap())
    }
}

/// Read a host API index from the value returned by `Pa_GetHostApiCount`,
/// `Pa_GetDefaultHostApi` or `Pa_HostApiTypeIdToHostApiIndex`.
pub fn result_from_host_api_index(idx: i32) -> (r: Result<HostApiIndex, Error>)
    requires
        is_index_code(idx as int),
    ensures
        r == host_api_index_of_code(idx),
        0 <= idx <= u16::MAX ==> r == Ok::<HostApiIndex, Error>(idx as HostApiIndex),
        idx < 0 ==> (r matches Err(e) && code_of(e) == idx),
{
    if idx >= 0 {
        Ok(#[verifier::truncate] (idx as u16))
    } else {
        Err(Error::from_i32(idx).unwrap())
    }
}

/// Read the size in bytes of a sample from the value returned by `Pa_GetSampleSize`: a
/// non-negative value is the size (as a `u8`), and a negative one is an error code.
pub fn sample_size_from_code(result: i32) -> (r: Result<u8, Error>)
    requires
        is_index_code(result as int),
    ensures
        result < 0 ==> r == Err::<u8, Error>(error_of_code(result as int).unwrap()),
        result >= 0 ==> r == Ok::<u8, Error>(#[verifier::truncate] (result as u8)),
{
    if result < 0 {
        Err(Error::from_i32(result).unwrap())
    } else {
        Ok(#[verifier::truncate] (result as u8))
    }
}

/// Whether a query of the formats a stream supports can be made: at least one of its directions
/// must be given, else the query fails with **Error::InvalidDevice**.
pub fn check_format_query(
    input: &Option<PaStreamParameters>,
    output: &Option<PaStreamParameters>,
) -> (r: Result<(), Error>)
    ensures
        r is Err <==> (input is None && output is None),
        r matches Err(e) ==> e == Error::InvalidDevice,
{
    if input.is_none() && output.is_none() {
        Err(Error::InvalidDevice)
    } else {
        Ok(())
    }
}

/// One step of a device iterator at `next` over `total` devices: the device at `next` is yielded
/// and the iterator moves on, unless all devices have been yielded.
pub open spec fn device_step(next: u32, total: u32) -> (u32, Option<DeviceIndex>) {
    if next < total {
        ((next + 1) as u32, Some(DeviceIndex(next)))
    } else {
        (next, None)
    }
}

/// Where a fresh device iterator over `total` devices stands after `k` steps.
pub open spec fn devices_after(total: u32, k: nat) -> u32
    decreases k,
{
    if k == 0 {
        0
    } else {
        device_step(devices_after(total, (k - 1) as nat), total).0
    }
}

/// A fresh device iterator over `total` devices yields the device indices `0`, `1`, ...,
/// `total - 1`, in that order, and then nothing.
pub proof fn lemma_devices_yield_in_order(total: u32, k: nat)
    ensures
        devices_after(total, k) == if k < total { k as u32 } else { total },
        device_step(devices_after(total, k), total).1 == if k < total {
            Some(DeviceIndex(k as u32))
        } else {
            None
        },
    decreases k,
{
    if k > 0 {
        lemma_devices_yield_in_order(total, (k - 1) as nat);
    }
}

/// An iterator yielding the **DeviceIndex** for each available device.
pub struct Devices {
    total: u32,
    next: u32,
}

impl Devices {
    /// The number of devices.
    pub closed spec fn total(&self) -> u32 {
        self.total
    }

    /// The index of the next device to yield.
    pub closed spec fn next(&self) -> u32 {
        self.next
    }

    /// The iterator never goes past the last device.
    #[verifier::type_invariant]
    closed spec fn inv(self) -> bool {
        self.next <= self.total
    }

    /// An iterator over the devices `0..total`.
    pub fn new(total: u32) -> (r: Devices)
        ensures
            r.total() == total,
            r.next() == 0,
    {
        Devices { total, next: 0 }
    }

    /// Yield the index of the next device, or `None` once all have been yielded.
    pub fn next_index(&mut self) -> (r: Option<DeviceIndex>)
        ensures
            final(self).total() == old(self).total(),
            (final(self).next(), r) == device_step(old(self).next(), old(self).total()),
            final(self).next() <= final(self).total(),
    {
        proof {
            use_type_invariant(&*self);
        }
        if self.next < self.total {
            let idx = DeviceIndex(self.next);
            self.next = self.next + 1;
            return Some(idx);
        }
        None
    }
}

/// One step of a host API iterator at `next` over `total` host APIs: the index `next` is yielded
/// and the iterator moves on, unless all indices have been yielded.
pub open spec fn host_api_step(next: HostApiIndex, total: HostApiIndex) -> (
    HostApiIndex,
    Option<HostApiIndex>,
) {
    if next < total {
        ((next + 1) as HostApiIndex, Some(next))
    } else {
        (next, None)
    }
}

/// Where a fresh host API iterator over `total` host APIs stands after `k` steps.
pub open spec fn host_apis_after(total: HostApiIndex, k: nat) -> HostApiIndex
    decreases k,
{
    if k == 0 {
        0
    } else {
        host_api_step(host_apis_after(total, (k - 1) as nat), total).0
    }
}

/// A fresh host API iterator over `total` host APIs yields the indices `0`, `1`, ...,
/// `total - 1`, in that order, and then nothing.
pub proof fn lemma_host_apis_yield_in_order(total: HostApiIndex, k: nat)
    ensures
        host_apis_after(total, k) == if k < total { k as HostApiIndex } else { total },
        host_api_step(host_apis_after(total, k), total).1 == if k < total {
            Some(k as HostApiIndex)
        } else {
            None
        },
    decreases k,
{
    if k > 0 {
        lemma_host_apis_yield_in_order(total, (k - 1) as nat);
    }
}

/// An iterator yielding the **HostApiIndex** of each available API.
#[derive(Copy, Clone, Debug)]
pub struct HostApis {
    total: HostApiIndex,
    next: HostApiIndex,
}

impl HostApis {
    /// The number of host APIs.
    pub closed spec fn total(&self) -> HostApiIndex {
        self.total
    }

    /// The index of the next host API to yield.
    pub closed spec fn next(&self) -> HostApiIndex {
        self.next
    }

    /// The iterator never goes past the last host API.
    #[verifier::type_invariant]
    closed spec fn inv(self) -> bool {
        self.next <= self.total
    }

    /// An iterator over the host APIs `0..total`.
    pub fn new(total: HostApiIndex) -> (r: HostApis)
        ensures
            r.total() == total,
            r.next() == 0,
    {
        HostApis { total, next: 0 }
    }

    /// Yield the index of the next host API, or `None` once all have been yielded.
    ///
    /// The caller skips the indices for which no host API information can be read.
    pub fn next_index(&mut self) -> (r: Option<HostApiIndex>)
        ensures
            final(self).total() == old(self).total(),
            (final(self).next(), r) == host_api_step(old(self).next(), old(self).total()),
            final(self).next() <= final(self).total(),
    {
        proof {
            use_type_invariant(&*self);
        }
        if self.next < self.total {
            let idx = self.next;
            self.next = self.next + 1;
            return Some(idx);
        }
        None
    }
}

} // verus!
