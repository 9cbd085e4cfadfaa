# portaudio

Rust bindings for [PortAudio](http://www.portaudio.com/), the cross-platform audio I/O library,
with their logic verified by Verus.

Every PortAudio C function reports its outcome as a plain value: a status code, a count, an
index or a structure. The library in `src/` turns those values into Rust types and proves, for
every input, what it returns:

- `error.rs`: the `Error` type, the PortAudio error codes and their decoding.
- `types.rs`: device indices and kinds, sample formats and their flags, host API types and the
  reading and writing of the C host API and host error structures.
- `stream.rs`: stream parameters and their C encoding, stream and callback flags, the decoding
  of stream states and frame availability, and audio buffer sizes.
- `cstr.rs`: the text of the C strings that PortAudio hands out.
- `lib.rs`: the PortAudio session (initialization, termination, device and host API
  enumeration).

`app/` performs the calls into the C library, holds the audio memory and the stream callbacks,
and carries the types that contain floating point values (latencies, sample rates, times).
