use portaudio::error::result_from_code;
use portaudio::Error;

const ALL_ERRORS: [(Error, i32); 31] = [
    (Error::NoError, 0),
    (Error::NoDevice, -1),
    (Error::NotInitialized, -10000),
    (Error::UnanticipatedHostError, -9999),
    (Error::InvalidChannelCount, -9998),
    (Error::InvalidSampleRate, -9997),
    (Error::InvalidDevice, -9996),
    (Error::InvalidFlag, -9995),
    (Error::SampleFormatNotSupported, -9994),
    (Error::BadIODeviceCombination, -9993),
    (Error::InsufficientMemory, -9992),
    (Error::BufferTooBig, -9991),
    (Error::BufferTooSmall, -9990),
    (Error::NullCallback, -9989),
    (Error::BadStreamPtr, -9988),
    (Error::TimedOut, -9987),
    (Error::InternalError, -9986),
    (Error::DeviceUnavailable, -9985),
    (Error::IncompatibleHostApiSpecificStreamInfo, -9984),
    (Error::StreamIsStopped, -9983),
    (Error::StreamIsNotStopped, -9982),
    (Error::InputOverflowed, -9981),
    (Error::OutputUnderflowed, -9980),
    (Error::HostApiNotFound, -9979),
    (Error::InvalidHostApi, -9978),
    (Error::CanNotReadFromACallbackStream, -9977),
    (Error::CanNotWriteToACallbackStream, -9976),
    (Error::CanNotReadFromAnOutputOnlyStream, -9975),
    (Error::CanNotWriteToAnInputOnlyStream, -9974),
    (Error::IncompatibleStreamHostApi, -9973),
    (Error::BadBufferPtr, -9972),
];

#[test]
fn every_error_has_its_portaudio_code() {
    for (e, code) in ALL_ERRORS.iter() {
        assert_eq!(e.code(), *code);
    }
}

#[test]
fn decoding_a_code_gives_back_the_error() {
    for (e, code) in ALL_ERRORS.iter() {
        assert_eq!(Error::from_i32(*code), Some(*e));
        assert_eq!(Error::from_i64(*code as i64), Some(*e));
        assert_eq!(Error::from_i32(e.code()), Some(*e));
    }
}

#[test]
fn codes_outside_the_error_range_do_not_decode() {
    for code in [1, 2, -2, -9971, -10001, 100, i32::MIN, i32::MAX].iter() {
        assert_eq!(Error::from_i32(*code), None);
    }
    assert_eq!(Error::from_i64(-9972 - (1i64 << 32)), None);
}

#[test]
fn errors_are_ordered_by_code() {
    assert!(Error::NotInitialized < Error::BadBufferPtr);
    assert!(Error::BadBufferPtr < Error::NoDevice);
    assert!(Error::NoDevice < Error::NoError);
    for w in ALL_ERRORS.windows(2) {
        let (a, ca) = w[0];
        let (b, cb) = w[1];
        assert_eq!(a < b, ca < cb);
    }
}

#[test]
fn descriptions() {
    assert_eq!(Error::NoError.description(), "No Error");
    assert_eq!(Error::NoDevice.description(), "No Device");
    assert_eq!(Error::NotInitialized.description(), "PortAudio not initialized");
    assert_eq!(
        Error::BadIODeviceCombination.description(),
        "Input device not compatible with output device"
    );
    assert_eq!(Error::InputOverflowed.description(), "The input stream has overflowed");
    assert_eq!(
        Error::CanNotWriteToAnInputOnlyStream.description(),
        "Portaudio cannot write to an input only stream"
    );
    assert_eq!(Error::BadBufferPtr.description(), "Invalid buffer");
}

#[test]
fn status_codes_decode_to_results() {
    assert_eq!(result_from_code(0), Ok(()));
    assert_eq!(result_from_code(-9996), Err(Error::InvalidDevice));
    assert_eq!(result_from_code(-1), Err(Error::NoDevice));
    assert_eq!(result_from_code(-9972), Err(Error::BadBufferPtr));
}

#[test]
fn errors_display_as_their_variant_name() {
    assert_eq!(Error::NoError.display_text(), "NoError");
    assert_eq!(Error::InvalidDevice.display_text(), "InvalidDevice");
    assert_eq!(Error::BadIODeviceCombination.display_text(), "BadIODeviceCombination");
    for (e, _) in ALL_ERRORS.iter() {
        assert_eq!(e.display_text(), format!("{:?}", e));
    }
}

#[test]
fn the_code_of_an_error_decodes_to_that_error() {
    for (e, _) in ALL_ERRORS.iter() {
        let expected = if *e == Error::NoError { Ok(()) } else { Err(*e) };
        assert_eq!(result_from_code(e.code()), expected);
    }
}
