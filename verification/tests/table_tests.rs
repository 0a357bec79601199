use soundio::Backend;
use soundio::ChannelId;
use soundio::ChannelLayout;
use soundio::ChannelLayoutId;
use soundio::Device;
use soundio::DeviceAim;
use soundio::Error;
use soundio::Format;
use soundio::SampleRateRange;
use soundio::SoftwareLatency;

#[test]
fn error_codes_round_trip() {
    let all = [
        Error::NoMem,
        Error::InitAudioBackend,
        Error::SystemResources,
        Error::OpeningDevice,
        Error::NoSuchDevice,
        Error::Invalid,
        Error::BackendUnavailable,
        Error::Streaming,
        Error::IncompatibleDevice,
        Error::NoSuchClient,
        Error::IncompatibleBackend,
        Error::BackendDisconnected,
        Error::Interrupted,
        Error::Underflow,
        Error::EncodingString,
        Error::Unknown,
    ];
    for e in all {
        assert_eq!(Error::from_native(e.to_native()), e);
    }
    // Distinct named variants map to distinct codes.
    for (i, a) in all.iter().enumerate() {
        for b in all.iter().skip(i + 1) {
            assert_ne!(a.to_native(), b.to_native());
        }
    }
}

#[test]
fn unknown_error_codes_stay_unknown() {
    for code in [0, 16, 99, -1, -1000, i32::MAX, i32::MIN] {
        assert_eq!(Error::from_native(code), Error::Unknown);
        assert_eq!(Error::from_native(Error::from_native(code).to_native()), Error::Unknown);
    }
    assert_eq!(Error::from_native(5), Error::NoSuchDevice);
    assert_eq!(Error::Invalid.to_native(), 6);
}

#[test]
fn error_descriptions() {
    assert_eq!(Error::NoMem.description(), "out of memory");
    assert_eq!(Error::Underflow.description(), "buffer underflow");
    assert_eq!(Error::Unknown.description(), "(unknown error)");
}

#[test]
fn backend_codes_and_names() {
    let all = [
        Backend::NoBackend,
        Backend::Jack,
        Backend::PulseAudio,
        Backend::Alsa,
        Backend::CoreAudio,
        Backend::Wasapi,
        Backend::Dummy,
    ];
    for b in all {
        assert_eq!(Backend::from_native(b.to_native()), b);
    }
    assert_eq!(Backend::Dummy.to_native(), 6);
    assert_eq!(Backend::from_native(77), Backend::NoBackend);
    assert_eq!(Backend::Alsa.name(), "ALSA");
    assert_eq!(Backend::Dummy.name(), "Dummy");
}

#[test]
fn version_and_backends() {
    assert_eq!(soundio::version_string(), "2.0.0");
    assert_eq!(soundio::version(), (2, 0, 0));
    assert!(soundio::have_backend(Backend::Dummy));
    assert!(!soundio::have_backend(Backend::Alsa));
    assert!(!soundio::have_backend(Backend::NoBackend));
}

#[test]
fn channel_id_codes_round_trip() {
    assert_eq!(ChannelId::FrontLeft.to_native(), 1);
    assert_eq!(ChannelId::Invalid.to_native(), 0);
    assert_eq!(ChannelId::Aux15.to_native(), 68);
    for code in 0..=68 {
        let id = ChannelId::from_native(code);
        assert_eq!(id.to_native(), code);
    }
    assert_eq!(ChannelId::from_native(69), ChannelId::Invalid);
    assert_eq!(ChannelId::from_native(-3), ChannelId::Invalid);
}

#[test]
fn layout_id_codes_round_trip() {
    assert_eq!(ChannelLayoutId::Mono.to_native(), 0);
    assert_eq!(ChannelLayoutId::Octagonal.to_native(), 25);
    for code in 0..=25 {
        assert_eq!(ChannelLayoutId::from_native(code).to_native(), code);
    }
}

#[test]
fn format_codes_and_sizes() {
    for code in 0..=18 {
        assert_eq!(Format::from_native(code).to_native(), code);
    }
    assert_eq!(Format::from_native(99), Format::Invalid);
    assert_eq!(Format::S8.bytes_per_sample(), 1);
    assert_eq!(Format::S16BE.bytes_per_sample(), 2);
    assert_eq!(Format::S24LE.bytes_per_sample(), 4);
    assert_eq!(Format::Float32LE.bytes_per_sample(), 4);
    assert_eq!(Format::Float64LE.bytes_per_sample(), 8);
    assert_eq!(Format::Invalid.bytes_per_sample(), 0);
    assert_eq!(Format::S8.bytes_per_frame(2), 2);
    assert_eq!(Format::Float64LE.bytes_per_frame(4), 32);
    assert_eq!(Format::S8.bytes_per_second(2, 8000), 16000);
    assert_eq!(Format::Float64LE.bytes_per_second(4, 4000), 128000);
}

#[test]
fn builtin_layouts() {
    let stereo = ChannelLayout::get_builtin(ChannelLayoutId::Stereo);
    assert_eq!(stereo.name, "Stereo");
    assert_eq!(stereo.channels, vec![ChannelId::FrontLeft, ChannelId::FrontRight]);
    let all = ChannelLayout::get_all_builtin();
    assert_eq!(all.len(), 26);
    assert_eq!(all[0].name, "Mono");
    assert_eq!(all[25].channels.len(), 8);
    let mono = ChannelLayout::get_default(1);
    assert_eq!(mono.channels, vec![ChannelId::FrontCenter]);
    let default_stereo = ChannelLayout::get_default(2);
    assert_eq!(default_stereo.channels.len(), 2);
    assert_eq!(ChannelLayout::get_default(6).name, "5.1 (back)");
}

#[test]
fn layout_equality_ignores_name() {
    let a = ChannelLayout {
        name: String::from("left then right"),
        channels: vec![ChannelId::FrontLeft, ChannelId::FrontRight],
    };
    let b = ChannelLayout::get_builtin(ChannelLayoutId::Stereo);
    assert!(a == b);
    let c = ChannelLayout {
        name: String::from("Stereo"),
        channels: vec![ChannelId::FrontRight, ChannelId::FrontLeft],
    };
    assert!(b != c);
}

#[test]
fn find_channel_positions() {
    let stereo = ChannelLayout::get_builtin(ChannelLayoutId::Stereo);
    assert_eq!(stereo.find_channel(ChannelId::FrontRight), Some(1));
    assert_eq!(stereo.find_channel(ChannelId::Lfe), None);
}

#[test]
fn best_matching_layout_takes_first_preferred() {
    let preferred = vec![
        ChannelLayout::get_builtin(ChannelLayoutId::Octagonal),
        ChannelLayout::get_builtin(ChannelLayoutId::Stereo),
        ChannelLayout::get_builtin(ChannelLayoutId::Mono),
    ];
    let available = vec![
        ChannelLayout::get_builtin(ChannelLayoutId::Mono),
        ChannelLayout::get_builtin(ChannelLayoutId::Stereo),
    ];
    let best = ChannelLayout::best_matching_channel_layout(&preferred, &available).unwrap();
    assert_eq!(best.name, "Stereo");
    let none = ChannelLayout::best_matching_channel_layout(
        &vec![ChannelLayout::get_builtin(ChannelLayoutId::Octagonal)],
        &available,
    );
    assert!(none.is_none());
}

#[test]
fn detect_builtin_restores_name() {
    let mut layout = ChannelLayout {
        name: String::from("anonymous"),
        channels: vec![ChannelId::FrontLeft, ChannelId::FrontRight, ChannelId::Lfe],
    };
    assert!(layout.detect_builtin());
    assert_eq!(layout.name, "2.1");
    let mut odd = ChannelLayout { name: String::from("odd"), channels: vec![ChannelId::Haptic] };
    assert!(!odd.detect_builtin());
    assert_eq!(odd.name, "odd");
}

#[test]
fn sort_layouts_by_channel_count() {
    let mut layouts = vec![
        ChannelLayout::get_builtin(ChannelLayoutId::Octagonal),
        ChannelLayout::get_builtin(ChannelLayoutId::Mono),
        ChannelLayout::get_builtin(ChannelLayoutId::C5Point1),
        ChannelLayout::get_builtin(ChannelLayoutId::Stereo),
    ];
    ChannelLayout::sort(&mut layouts);
    let counts: Vec<usize> = layouts.iter().map(|l| l.channels.len()).collect();
    assert_eq!(counts, vec![8, 6, 2, 1]);
}

fn test_device() -> Device {
    Device {
        id: String::from("test"),
        name: String::from("Test Device"),
        aim: DeviceAim::Output,
        is_raw: false,
        formats: vec![Format::S16LE, Format::Float32LE],
        layouts: vec![
            ChannelLayout::get_builtin(ChannelLayoutId::Stereo),
            ChannelLayout::get_builtin(ChannelLayoutId::Mono),
        ],
        sample_rates: vec![
            SampleRateRange::new(8000, 12000),
            SampleRateRange::new(44100, 48000),
        ],
        current_format: Format::S16LE,
        current_layout: ChannelLayout::get_builtin(ChannelLayoutId::Stereo),
        current_sample_rate: 48000,
        software_latency: SoftwareLatency { min: 1, max: 2, current: 1 },
    }
}

#[test]
fn device_capability_queries() {
    let dev = test_device();
    assert!(dev.supports_format(Format::S16LE));
    assert!(!dev.supports_format(Format::U8));
    assert!(dev.supports_layout(&ChannelLayout::get_builtin(ChannelLayoutId::Mono)));
    assert!(!dev.supports_layout(&ChannelLayout::get_builtin(ChannelLayoutId::Quad)));
    assert!(dev.supports_sample_rate(9000));
    assert!(!dev.supports_sample_rate(13000));
}

#[test]
fn nearest_sample_rate_picks_closest_supported() {
    let dev = test_device();
    // A supported rate comes back unchanged.
    assert_eq!(dev.nearest_sample_rate(44100), 44100);
    assert_eq!(dev.nearest_sample_rate(8000), 8000);
    // 30000 is 18000 from the first range but 14100 from the second.
    assert_eq!(dev.nearest_sample_rate(30000), 44100);
    // Below every range: the lowest floor wins.
    assert_eq!(dev.nearest_sample_rate(100), 8000);
    // Above every range: the highest ceiling wins.
    assert_eq!(dev.nearest_sample_rate(96000), 48000);
    let result = dev.nearest_sample_rate(30000);
    assert!(dev.supports_sample_rate(result));
}

#[test]
fn sort_channel_layouts_descending() {
    let mut dev = test_device();
    dev.sort_channel_layouts();
    let counts: Vec<usize> = dev.layouts().iter().map(|l| l.channels.len()).collect();
    assert_eq!(counts, vec![2, 1]);
    assert_eq!(dev.formats().len(), 2);
}

#[test]
fn aim_codes() {
    assert_eq!(DeviceAim::Input.to_native(), 0);
    assert_eq!(DeviceAim::Output.to_native(), 1);
    assert_eq!(DeviceAim::from_native(1), DeviceAim::Output);
    assert_eq!(DeviceAim::from_native(0), DeviceAim::Input);
}

#[test]
fn sample_rate_range_contains() {
    let r = SampleRateRange::new(8000, 48000);
    assert!(r.contains(8000));
    assert!(r.contains(48000));
    assert!(!r.contains(7999));
    assert!(!r.contains(48001));
}
