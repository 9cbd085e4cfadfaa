use portaudio::stream_callback_flags::CallbackFlags;
use portaudio::stream_flags::Flags;
use portaudio::types::sample_format_flags::{
    PA_ALL_SAMPLE_FORMAT_FLAGS, PA_CUSTOM_FORMAT, PA_FLOAT_32, PA_INT_16, PA_INT_24, PA_INT_32,
    PA_INT_8, PA_NON_INTERLEAVED, PA_UINT_8,
};
use portaudio::{SampleFormat, SampleFormatFlags};

const ALL_FORMATS: [SampleFormat; 8] = [
    SampleFormat::F32,
    SampleFormat::I32,
    SampleFormat::I24,
    SampleFormat::I16,
    SampleFormat::I8,
    SampleFormat::U8,
    SampleFormat::Custom,
    SampleFormat::Unknown,
];

#[test]
fn format_flags_have_portaudio_values() {
    assert_eq!(SampleFormat::F32.flags().bits(), 0x0000_0001);
    assert_eq!(SampleFormat::I32.flags().bits(), 0x0000_0002);
    assert_eq!(SampleFormat::I24.flags().bits(), 0x0000_0004);
    assert_eq!(SampleFormat::I16.flags().bits(), 0x0000_0008);
    assert_eq!(SampleFormat::I8.flags().bits(), 0x0000_0010);
    assert_eq!(SampleFormat::U8.flags().bits(), 0x0000_0020);
    assert_eq!(SampleFormat::Custom.flags().bits(), 0x0001_0000);
    assert_eq!(SampleFormat::Unknown.flags().bits(), 0);
    assert_eq!(SampleFormatFlags::non_interleaved().bits(), 0x8000_0000);
}

#[test]
fn formats_read_back_from_their_flags() {
    for f in ALL_FORMATS.iter() {
        assert_eq!(SampleFormat::from_flags(f.flags()), *f);
        let mut flags = f.flags();
        flags.insert(SampleFormatFlags::non_interleaved());
        assert_eq!(SampleFormat::from_flags(flags), *f);
    }
}

#[test]
fn the_first_matching_flag_decides_the_format() {
    let both = SampleFormatFlags::from_bits(PA_INT_16 | PA_FLOAT_32).unwrap();
    assert_eq!(SampleFormat::from_flags(both), SampleFormat::F32);
    let both = SampleFormatFlags::from_bits(PA_UINT_8 | PA_INT_24).unwrap();
    assert_eq!(SampleFormat::from_flags(both), SampleFormat::I24);
    let custom = SampleFormatFlags::from_bits(PA_CUSTOM_FORMAT | PA_NON_INTERLEAVED).unwrap();
    assert_eq!(SampleFormat::from_flags(custom), SampleFormat::Custom);
    assert_eq!(SampleFormat::from_flags(SampleFormatFlags::empty()), SampleFormat::Unknown);
    assert_eq!(
        SampleFormat::from_flags(SampleFormatFlags::non_interleaved()),
        SampleFormat::Unknown
    );
}

#[test]
fn sizes_in_bytes() {
    assert_eq!(SampleFormat::F32.size_in_bytes(), 4);
    assert_eq!(SampleFormat::I32.size_in_bytes(), 4);
    assert_eq!(SampleFormat::I24.size_in_bytes(), 3);
    assert_eq!(SampleFormat::I16.size_in_bytes(), 2);
    assert_eq!(SampleFormat::I8.size_in_bytes(), 1);
    assert_eq!(SampleFormat::U8.size_in_bytes(), 1);
    assert_eq!(SampleFormat::Custom.size_in_bytes(), 0);
    assert_eq!(SampleFormat::Unknown.size_in_bytes(), 0);
}

#[test]
fn sample_format_flag_sets() {
    assert_eq!(SampleFormatFlags::all().bits(), 0x8001_003F);
    assert_eq!(PA_ALL_SAMPLE_FORMAT_FLAGS, 0x8001_003F);
    assert!(SampleFormatFlags::from_bits(0x40).is_none());
    assert!(SampleFormatFlags::from_bits(PA_INT_32 | 0x100).is_none());
    assert_eq!(SampleFormatFlags::from_bits(PA_INT_8).unwrap().bits(), PA_INT_8);
    assert_eq!(SampleFormatFlags::from_bits_truncate(PA_INT_32 | 0x100).bits(), PA_INT_32);
    assert_eq!(SampleFormatFlags::from_bits_or_empty(PA_INT_32 | 0x100).bits(), 0);
    assert_eq!(SampleFormatFlags::from_bits_or_empty(PA_INT_32).bits(), PA_INT_32);
    let mut f = SampleFormatFlags::int_32();
    assert!(!f.contains(SampleFormatFlags::non_interleaved()));
    f.insert(SampleFormatFlags::non_interleaved());
    assert!(f.contains(SampleFormatFlags::non_interleaved()));
    assert!(f.contains(SampleFormatFlags::int_32()));
    assert_eq!(f.bits(), PA_INT_32 | PA_NON_INTERLEAVED);
    f.remove(SampleFormatFlags::int_32());
    assert_eq!(f.bits(), PA_NON_INTERLEAVED);
    assert!(!f.is_empty());
    assert!(SampleFormatFlags::empty().is_empty());
    let g = SampleFormatFlags::float_32().union(SampleFormatFlags::int_8());
    assert_eq!(g.bits(), PA_FLOAT_32 | PA_INT_8);
    let round = SampleFormatFlags::from_bits(g.bits()).unwrap();
    assert_eq!(round, g);
}

#[test]
fn sample_format_flag_names() {
    assert_eq!(SampleFormatFlags::float_32().display_text(),
        "\"FLOAT_32\"");
    assert_eq!(SampleFormatFlags::int_32().display_text(),
        "\"INT_32\"");
    assert_eq!(SampleFormatFlags::int_24().display_text(),
        "\"<Unknown SampleFormatFlags>\"");
    assert_eq!(SampleFormatFlags::int_16().display_text(),
        "\"INT_16\"");
    assert_eq!(SampleFormatFlags::int_8().display_text(),
        "\"INT_8\"");
    assert_eq!(SampleFormatFlags::uint_8().display_text(),
        "\"UINT_8\"");
    assert_eq!(SampleFormatFlags::custom_format().display_text(),
        "\"CUSTOM_FORMAT\"");
    assert_eq!(SampleFormatFlags::non_interleaved().display_text(),
        "\"NON_INTERLEAVED\"");
    assert_eq!(SampleFormatFlags::empty().display_text(),
        "\"<Unknown SampleFormatFlags>\"");
}

#[test]
fn stream_flags() {
    assert_eq!(Flags::empty().bits(), 0);
    assert_eq!(Flags::no_flag().bits(), 0);
    assert_eq!(Flags::clip_off().bits(), 0x1);
    assert_eq!(Flags::dither_off().bits(), 0x2);
    assert_eq!(Flags::never_drop_input().bits(), 0x4);
    assert_eq!(Flags::prime_output_buffers_using_stream_callback().bits(), 0x8);
    assert_eq!(Flags::platform_specific_flags().bits(), 0xFFFF_0000);
    let f = Flags::clip_off().union(Flags::dither_off());
    assert_eq!(f.bits(), 0x3);
    assert!(f.contains(Flags::clip_off()));
    assert!(!f.contains(Flags::never_drop_input()));
    assert!(Flags::from_bits(0x10).is_none());
    assert_eq!(Flags::from_bits(0x0001_0003).unwrap().bits(), 0x0001_0003);
    assert_eq!(Flags::clip_off().display_text(),
        "\"CLIP_OFF\"");
    assert_eq!(Flags::empty().display_text(),
        "\"NO_FLAG\"");
    assert_eq!(
        Flags::prime_output_buffers_using_stream_callback().display_text(),
        "\"PRIME_OUTPUT_BUFFERS_USING_STREAM_CALLBACK\""
    );
    assert_eq!(Flags::platform_specific_flags().display_text(),
        "\"PLATFORM_SPECIFIC_FLAGS\"");
    assert_eq!(f.display_text(),
        "\"<Unknown StreamFlags>\"");
}

#[test]
fn callback_flags() {
    assert_eq!(CallbackFlags::input_underflow().bits(), 0x1);
    assert_eq!(CallbackFlags::input_overflow().bits(), 0x2);
    assert_eq!(CallbackFlags::output_underflow().bits(), 0x4);
    assert_eq!(CallbackFlags::output_overflow().bits(), 0x8);
    assert_eq!(CallbackFlags::priming_output().bits(), 0x10);
    assert_eq!(CallbackFlags::from_bits_or_empty(0x6).bits(), 0x6);
    assert_eq!(CallbackFlags::from_bits_or_empty(0x20).bits(), 0);
    assert_eq!(CallbackFlags::from_bits_or_empty(0x21).bits(), 0);
    assert_eq!(CallbackFlags::no_flag().display_text(),
        "\"NO_FLAG\"");
    assert_eq!(CallbackFlags::output_overflow().display_text(),
        "\"OUTPUT_OVERFLOW\"");
    assert_eq!(CallbackFlags::priming_output().display_text(),
        "\"PRIMING_INPUT\"");
    assert_eq!(
        CallbackFlags::from_bits_or_empty(0x3).display_text(),
        "\"<Unknown StreamCallbackFlags>\""
    );
}
