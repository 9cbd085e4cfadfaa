use portaudio::cstr::INVALID_NAME;
use portaudio::stream::{
    buffer_byte_count, callback_sample_count, interleaved_sample_count, stream_state_from_code,
    Available,
};
use portaudio::{
    check_format_query, device_index_from_code, result_from_host_api_index,
    sample_size_from_code, version_text, Blocking, C_PaHostApiInfo, C_PaHostErrorInfo,
    DeviceIndex, DeviceKind, Devices, Error, HostApiInfo, HostApiTypeId, HostApis,
    HostErrorInfo, Life, PaStreamParameters, PortAudio, SampleFormat, StreamParameters,
};

fn port_audio() -> PortAudio {
    PortAudio::new(0).unwrap()
}

#[test]
fn initialization_follows_the_status_code() {
    assert!(PortAudio::new(0).is_ok());
    assert_eq!(PortAudio::new(-10000).err(), Some(Error::NotInitialized));
    assert_eq!(PortAudio::new(-9992).err(), Some(Error::InsufficientMemory));
}

#[test]
fn termination_is_recorded_in_the_life() {
    let mut life = Life::new();
    assert!(!life.is_terminated());
    assert!(life.terminates_on_drop());
    let pa = port_audio();
    assert_eq!(pa.terminate(&mut life, 0), Ok(()));
    assert!(life.is_terminated());
    assert!(!life.terminates_on_drop());

    let mut life = Life::new();
    let pa = port_audio();
    assert_eq!(pa.terminate(&mut life, -10000), Err(Error::NotInitialized));
    assert!(!life.terminates_on_drop());
}

#[test]
fn device_counts() {
    let pa = port_audio();
    assert_eq!(pa.device_count(3), Ok(3));
    assert_eq!(pa.device_count(0), Ok(0));
    assert_eq!(pa.device_count(-1), Ok(0));
    assert_eq!(pa.device_count(-10000), Err(Error::NotInitialized));
}

#[test]
fn devices_are_yielded_in_order_then_none() {
    let pa = port_audio();
    let mut devices = pa.devices(3).unwrap();
    assert_eq!(devices.next_index(), Some(DeviceIndex(0)));
    assert_eq!(devices.next_index(), Some(DeviceIndex(1)));
    assert_eq!(devices.next_index(), Some(DeviceIndex(2)));
    assert_eq!(devices.next_index(), None);
    assert_eq!(devices.next_index(), None);
    let mut none = pa.devices(-1).unwrap();
    assert_eq!(none.next_index(), None);
    assert_eq!(pa.devices(-10000).err(), Some(Error::NotInitialized));
    let mut fresh = Devices::new(1);
    assert_eq!(fresh.next_index(), Some(DeviceIndex(0)));
    assert_eq!(fresh.next_index(), None);
}

#[test]
fn host_apis_are_yielded_in_order_then_none() {
    let pa = port_audio();
    let mut apis = pa.host_apis(2);
    assert_eq!(apis.next_index(), Some(0));
    assert_eq!(apis.next_index(), Some(1));
    assert_eq!(apis.next_index(), None);
    let mut failed = pa.host_apis(-10000);
    assert_eq!(failed.next_index(), None);
    let mut fresh = HostApis::new(0);
    assert_eq!(fresh.next_index(), None);
}

#[test]
fn index_codes() {
    assert_eq!(device_index_from_code(4), Ok(DeviceIndex(4)));
    assert_eq!(device_index_from_code(-1), Err(Error::NoDevice));
    assert_eq!(device_index_from_code(-9996), Err(Error::InvalidDevice));
    assert_eq!(result_from_host_api_index(2), Ok(2));
    assert_eq!(result_from_host_api_index(-9978), Err(Error::InvalidHostApi));
    assert_eq!(result_from_host_api_index(65537), Ok(1));
    assert_eq!(sample_size_from_code(4), Ok(4));
    assert_eq!(sample_size_from_code(-9994), Err(Error::SampleFormatNotSupported));
}

#[test]
fn version_text_is_decoded() {
    let pa = port_audio();
    let text = b"PortAudio V19.7.0-devel";
    assert_eq!(pa.version_text(text).unwrap(), "PortAudio V19.7.0-devel");
    assert!(version_text(&[0xff, 0xfe]).is_err());
}

#[test]
fn host_api_type_ids() {
    assert_eq!(HostApiTypeId::from_c_id(8), Some(HostApiTypeId::ALSA));
    assert_eq!(HostApiTypeId::from_c_id(12), Some(HostApiTypeId::JACK));
    assert_eq!(HostApiTypeId::from_c_id(6), None);
    assert_eq!(HostApiTypeId::from_c_id(15), None);
    assert_eq!(HostApiTypeId::from_c_id(-1), None);
    for c in 0..15 {
        if let Some(id) = HostApiTypeId::from_c_id(c) {
            assert_eq!(id.c_id(), c);
        }
    }
    assert_eq!(HostApiTypeId::OSS.c_id(), 7);
}

fn alsa_info(name: &[u8]) -> C_PaHostApiInfo<'_> {
    C_PaHostApiInfo {
        struct_version: 1,
        host_type: 8,
        name,
        device_count: 3,
        default_input_device: -1,
        default_output_device: 2,
    }
}

#[test]
fn host_api_info_from_c() {
    let info = HostApiInfo::from_c_info(alsa_info(b"ALSA")).unwrap();
    assert_eq!(info.struct_version, 1);
    assert_eq!(info.host_type, HostApiTypeId::ALSA);
    assert_eq!(info.name, "ALSA");
    assert_eq!(info.device_count, 3);
    assert_eq!(info.default_input_device, None);
    assert_eq!(info.default_output_device, Some(DeviceIndex(2)));

    let bad_name = HostApiInfo::from_c_info(alsa_info(&[0xc3, 0x28])).unwrap();
    assert_eq!(bad_name.name, INVALID_NAME);
    assert_eq!(INVALID_NAME, "<Failed to convert str from CStr>");

    let mut c = alsa_info(b"ALSA");
    c.default_input_device = -2;
    assert!(HostApiInfo::from_c_info(c).is_none());
    let mut c = alsa_info(b"ALSA");
    c.default_output_device = -5;
    assert!(HostApiInfo::from_c_info(c).is_none());
    let mut c = alsa_info(b"ALSA");
    c.device_count = -1;
    assert!(HostApiInfo::from_c_info(c).is_none());
    let mut c = alsa_info(b"ALSA");
    c.host_type = 6;
    assert!(HostApiInfo::from_c_info(c).is_none());
}

#[test]
fn host_api_info_round_trips_through_c() {
    let info = HostApiInfo {
        struct_version: 1,
        host_type: HostApiTypeId::JACK,
        name: "JACK Audio Connection Kit",
        device_count: 2,
        default_input_device: Some(DeviceIndex(0)),
        default_output_device: None,
    };
    let c = info.to_c_info();
    assert_eq!(c.host_type, 12);
    assert_eq!(c.default_output_device, -1);
    assert_eq!(c.name, b"JACK Audio Connection Kit");
    assert_eq!(HostApiInfo::from_c_info(c), Some(info));
}

#[test]
fn host_error_info() {
    let pa = port_audio();
    let c = C_PaHostErrorInfo { error_code: 42, error_text: b"device busy" };
    let info = pa.last_host_error_info(c);
    assert_eq!(info, HostErrorInfo { code: 42, text: "device busy" });
    assert_eq!(info.to_c_error_info(), c);
    let bad = HostErrorInfo::from_c_error_info(C_PaHostErrorInfo {
        error_code: 1,
        error_text: &[0x80],
    });
    assert_eq!(bad.text, INVALID_NAME);
}

#[test]
fn device_kinds_in_c() {
    let idx: i32 = DeviceIndex(5).into();
    assert_eq!(idx, 5);
    let kind: DeviceKind = DeviceIndex(7).into();
    assert_eq!(kind, DeviceKind::Index(DeviceIndex(7)));
    let c: i32 = kind.into();
    assert_eq!(c, 7);
    let c: i32 = DeviceKind::UseHostApiSpecificDeviceSpecification.into();
    assert_eq!(c, -2);
}

#[test]
fn stream_parameters_to_c() {
    let latency = 0.25f64.to_bits();
    let p = StreamParameters::new(DeviceIndex(1), 2, true, latency, SampleFormat::F32);
    assert_eq!(p.device, DeviceKind::Index(DeviceIndex(1)));
    let c: PaStreamParameters = p.into();
    assert_eq!(c.device, 1);
    assert_eq!(c.channel_count, 2);
    assert_eq!(c.sample_format, 0x1);
    assert_eq!(f64::from_bits(c.suggested_latency_bits), 0.25);

    let q = StreamParameters::new(DeviceIndex(3), 1, false, latency, SampleFormat::I16);
    let c: PaStreamParameters = q.into();
    assert_eq!(c.sample_format, 0x8000_0008);

    let h = StreamParameters::host_api_specific_device(2, true, latency, SampleFormat::I32);
    assert_eq!(h.device, DeviceKind::UseHostApiSpecificDeviceSpecification);
    let c: PaStreamParameters = h.into();
    assert_eq!(c.device, -2);
}

#[test]
fn stream_parameters_from_c() {
    let c = PaStreamParameters {
        device: 4,
        channel_count: 2,
        sample_format: 0x8000_0002,
        suggested_latency_bits: 9,
    };
    let p = StreamParameters::from_c_params(c, SampleFormat::I32).unwrap();
    assert_eq!(p.device, DeviceKind::Index(DeviceIndex(4)));
    assert!(!p.is_interleaved);
    assert_eq!(p.channel_count, 2);
    assert_eq!(p.suggested_latency_bits, 9);
    assert!(StreamParameters::from_c_params(c, SampleFormat::F32).is_none());

    let host = PaStreamParameters { device: -2, ..c };
    let p = StreamParameters::from_c_params(host, SampleFormat::I32).unwrap();
    assert_eq!(p.device, DeviceKind::UseHostApiSpecificDeviceSpecification);
    let no_device = PaStreamParameters { device: -1, ..c };
    assert!(StreamParameters::from_c_params(no_device, SampleFormat::I32).is_none());
    let invalid = PaStreamParameters { device: -3, ..c };
    assert!(StreamParameters::from_c_params(invalid, SampleFormat::I32).is_none());

    let unknown_bit = PaStreamParameters { sample_format: 0x8000_0102, ..c };
    let p = StreamParameters::from_c_params(unknown_bit, SampleFormat::Unknown).unwrap();
    assert!(p.is_interleaved);
    assert!(StreamParameters::from_c_params(unknown_bit, SampleFormat::I32).is_none());
}

#[test]
fn stream_parameters_round_trip_through_c() {
    let formats = [
        SampleFormat::F32,
        SampleFormat::I32,
        SampleFormat::I24,
        SampleFormat::I16,
        SampleFormat::I8,
        SampleFormat::U8,
        SampleFormat::Custom,
        SampleFormat::Unknown,
    ];
    for f in formats.iter() {
        for interleaved in [true, false].iter() {
            let p = StreamParameters::new(DeviceIndex(9), 6, *interleaved, 1234, *f);
            let c: PaStreamParameters = p.into();
            assert_eq!(StreamParameters::from_c_params(c, *f), Some(p));
            let h = StreamParameters::host_api_specific_device(2, *interleaved, 99, *f);
            let c: PaStreamParameters = h.into();
            assert_eq!(StreamParameters::from_c_params(c, *f), Some(h));
        }
    }
}

#[test]
fn availability_codes() {
    assert_eq!(Available::from_c_available(0), Ok(Available::Frames(0)));
    assert_eq!(Available::from_c_available(512), Ok(Available::Frames(512)));
    assert_eq!(Available::from_c_available(-9981), Ok(Available::InputOverflowed));
    assert_eq!(Available::from_c_available(-9980), Ok(Available::OutputUnderflowed));
    assert_eq!(Available::from_c_available(-9988), Err(Error::BadStreamPtr));
    assert_eq!(Available::from_c_available(-1), Err(Error::NoDevice));
}

#[test]
fn stream_state_codes() {
    assert_eq!(stream_state_from_code(1), Ok(true));
    assert_eq!(stream_state_from_code(0), Ok(false));
    assert_eq!(stream_state_from_code(-9988), Err(Error::BadStreamPtr));
}

#[test]
fn format_queries_need_a_direction() {
    let c = PaStreamParameters {
        device: 0,
        channel_count: 1,
        sample_format: 1,
        suggested_latency_bits: 0,
    };
    assert_eq!(check_format_query(&None, &None), Err(Error::InvalidDevice));
    assert_eq!(check_format_query(&Some(c), &None), Ok(()));
    assert_eq!(check_format_query(&None, &Some(c)), Ok(()));
}

#[test]
fn buffer_sizes() {
    assert_eq!(interleaved_sample_count(256, 2), 512);
    assert_eq!(interleaved_sample_count(0, 8), 0);
    assert_eq!(buffer_byte_count(4, 256, 2), 2048);
    assert_eq!(buffer_byte_count(2, 0, 2), 0);
    assert_eq!(callback_sample_count(2, 128), 256);
}

#[test]
fn blocking_mode_holds_its_buffer() {
    let mut b = Blocking::new(vec![0i16; 4]);
    assert_eq!(b.buffer_ref().len(), 4);
    b.buffer_mut().push(1);
    assert_eq!(b.buffer_ref().len(), 5);
}

#[test]
fn host_api_specific_device_is_read_from_c() {
    let c = PaStreamParameters {
        device: -2,
        channel_count: 2,
        sample_format: 0x1,
        suggested_latency_bits: 0.5f64.to_bits(),
    };
    let p = StreamParameters::from_c_params(c, SampleFormat::F32).unwrap();
    assert_eq!(p.device, DeviceKind::UseHostApiSpecificDeviceSpecification);
    assert_eq!(p.channel_count, 2);
    assert_eq!(f64::from_bits(p.suggested_latency_bits), 0.5);
    assert!(p.is_interleaved);
}
