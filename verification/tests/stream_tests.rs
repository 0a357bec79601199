use soundio::Backend;
use soundio::ChannelId;
use soundio::ChannelLayout;
use soundio::Context;
use soundio::Device;
use soundio::Error;
use soundio::Format;
use soundio::InStreamCallbacks;
use soundio::InStreamReader;
use soundio::OutStreamCallbacks;
use soundio::OutStreamWriter;

fn dummy_output_device() -> Device {
    let mut ctx = Context::new();
    ctx.connect_backend(Backend::Dummy).unwrap();
    ctx.flush_events();
    ctx.default_output_device().unwrap()
}

fn dummy_input_device() -> Device {
    let mut ctx = Context::new();
    ctx.connect_backend(Backend::Dummy).unwrap();
    ctx.flush_events();
    ctx.default_input_device().unwrap()
}

struct Recorder {
    calls: usize,
    bounds_ok: bool,
    roundtrip_ok: bool,
    zero_ok: bool,
}

impl Recorder {
    fn new() -> Recorder {
        Recorder { calls: 0, bounds_ok: true, roundtrip_ok: true, zero_ok: true }
    }
}

impl OutStreamCallbacks for Recorder {
    fn on_write(&mut self, w: &mut OutStreamWriter) {
        self.calls += 1;
        let min = w.frame_count_min();
        let max = w.frame_count_max();
        w.begin_write(max).unwrap();
        let n = w.frame_count();
        self.bounds_ok &= min <= n && n <= max;
        // A fresh window is silent.
        self.zero_ok &= w.sample(0, 0) == vec![0u8; w.bytes_per_sample()];
        // Write a value to (channel 1, frame 3) and read it back.
        let v = 0.25f32.to_le_bytes().to_vec();
        w.set_sample(1, 3, &v);
        self.roundtrip_ok &= w.sample(1, 3) == v;
        // The neighbouring samples are untouched by that write.
        self.zero_ok &= w.sample(0, 3) == vec![0u8; 4];
        self.zero_ok &= w.sample(1, 2) == vec![0u8; 4];
        self.zero_ok &= w.sample(1, 4) == vec![0u8; 4];
        // Fill every sample of every channel, respecting the stride.
        for c in 0..w.channel_count() {
            for f in 0..n {
                let s = 0.5f32.to_le_bytes().to_vec();
                w.set_sample(c, f, &s);
            }
        }
        self.roundtrip_ok &= w.sample(1, 3) == 0.5f32.to_le_bytes().to_vec();
    }

    fn on_underflow(&mut self) {}

    fn on_error(&mut self, _err: Error) {}
}

#[test]
fn scenario_outstream_write_callback_runs() {
    let dev = dummy_output_device();
    let layout = ChannelLayout::get_default(2);
    let mut stream = dev
        .open_outstream(48000, Format::Float32LE, &layout, 0, Recorder::new())
        .unwrap();
    assert_eq!(stream.sample_rate(), 48000);
    assert_eq!(stream.format(), Format::Float32LE);
    stream.start().unwrap();
    assert!(stream.callbacks().calls >= 1);
    stream.run_period().unwrap();
    stream.run_period().unwrap();
    let rec = stream.callbacks();
    assert_eq!(rec.calls, 3);
    assert!(rec.bounds_ok);
    assert!(rec.roundtrip_ok);
    assert!(rec.zero_ok);
}

#[test]
fn pause_twice_is_idempotent() {
    let dev = dummy_output_device();
    let layout = ChannelLayout::get_default(2);
    let mut stream = dev
        .open_outstream(48000, Format::Float32LE, &layout, 0, Recorder::new())
        .unwrap();
    stream.start().unwrap();
    assert_eq!(stream.pause(true), Ok(()));
    assert_eq!(stream.pause(true), Ok(()));
    let before = stream.callbacks().calls;
    stream.run_period().unwrap();
    assert_eq!(stream.callbacks().calls, before);
    assert_eq!(stream.pause(false), Ok(()));
    stream.run_period().unwrap();
    assert_eq!(stream.callbacks().calls, before + 1);
}

#[test]
fn start_twice_is_invalid() {
    let dev = dummy_output_device();
    let layout = ChannelLayout::get_default(1);
    let mut stream = dev
        .open_outstream(44100, Format::S16LE, &layout, 0, Recorder::new())
        .unwrap();
    assert_eq!(stream.start(), Ok(()));
    assert_eq!(stream.start(), Err(Error::Invalid));
}

#[test]
fn clear_buffer_succeeds() {
    let dev = dummy_output_device();
    let layout = ChannelLayout::get_default(2);
    let mut stream = dev
        .open_outstream(48000, Format::Float32LE, &layout, 0, Recorder::new())
        .unwrap();
    stream.start().unwrap();
    assert_eq!(stream.clear_buffer(), Ok(()));
}

#[test]
fn outstream_negotiates_rate_and_latency() {
    let dev = dummy_output_device();
    let layout = ChannelLayout::get_default(2);
    // 7000 Hz is below the dummy device's 8000 Hz floor.
    let stream = dev
        .open_outstream(7000, Format::Float32LE, &layout, 0, Recorder::new())
        .unwrap();
    assert_eq!(stream.sample_rate(), 8000);
    assert_eq!(stream.software_latency(), dev.software_latency().current);
    assert_eq!(stream.bytes_per_sample(), 4);
    assert_eq!(stream.bytes_per_frame(), 8);
    // A latency request beyond the device maximum is clamped to it.
    let slow = dev
        .open_outstream(48000, Format::Float32LE, &layout, u64::MAX, Recorder::new())
        .unwrap();
    assert_eq!(slow.software_latency(), dev.software_latency().max);
}

#[test]
fn open_outstream_rejects_bad_parameters() {
    let out_dev = dummy_output_device();
    let in_dev = dummy_input_device();
    let layout = ChannelLayout::get_default(2);
    // Wrong aim.
    assert_eq!(
        in_dev
            .open_outstream(48000, Format::Float32LE, &layout, 0, Recorder::new())
            .err(),
        Some(Error::Invalid)
    );
    // Invalid format.
    assert_eq!(
        out_dev
            .open_outstream(48000, Format::Invalid, &layout, 0, Recorder::new())
            .err(),
        Some(Error::Invalid)
    );
    // Empty layout.
    let empty = ChannelLayout { name: String::new(), channels: Vec::new() };
    assert_eq!(
        out_dev
            .open_outstream(48000, Format::Float32LE, &empty, 0, Recorder::new())
            .err(),
        Some(Error::Invalid)
    );
    // A layout the device does not support.
    let odd = ChannelLayout {
        name: String::from("just left"),
        channels: vec![ChannelId::FrontLeft],
    };
    assert_eq!(
        out_dev
            .open_outstream(48000, Format::Float32LE, &odd, 0, Recorder::new())
            .err(),
        Some(Error::IncompatibleDevice)
    );
}

#[test]
fn outstream_clamps_high_rate_and_low_latency() {
    let dev = dummy_output_device();
    let layout = ChannelLayout::get_default(2);
    // 6000000 Hz is above the dummy device's 5644800 Hz ceiling.
    let fast = dev
        .open_outstream(6000000, Format::Float32LE, &layout, 1, Recorder::new())
        .unwrap();
    assert_eq!(fast.sample_rate(), 5644800);
    // A 1 ns latency request is clamped up to the device minimum.
    assert_eq!(fast.software_latency(), dev.software_latency().min);
}

struct Geometry {
    step_ok: bool,
    latency_ok: bool,
}

impl OutStreamCallbacks for Geometry {
    fn on_write(&mut self, w: &mut OutStreamWriter) {
        self.step_ok = w.step() == w.bytes_per_sample() * w.channel_count();
        self.latency_ok = w.get_latency() == Ok(w.software_latency());
        w.begin_write(w.frame_count_min()).unwrap();
    }

    fn on_underflow(&mut self) {}

    fn on_error(&mut self, _err: Error) {}
}

#[test]
fn cursor_reports_interleaved_stride_and_latency() {
    let dev = dummy_output_device();
    let layout = ChannelLayout::get_default(2);
    let mut stream = dev
        .open_outstream(48000, Format::S16LE, &layout, 0, Geometry { step_ok: false, latency_ok: false })
        .unwrap();
    stream.start().unwrap();
    assert!(stream.callbacks().step_ok);
    assert!(stream.callbacks().latency_ok);
}

struct Capture {
    calls: usize,
    silent_ok: bool,
    bounds_ok: bool,
}

impl InStreamCallbacks for Capture {
    fn on_read(&mut self, r: &mut InStreamReader) {
        self.calls += 1;
        let min = r.frame_count_min();
        let max = r.frame_count_max();
        r.begin_read(max).unwrap();
        let n = r.frame_count();
        self.bounds_ok &= min <= n && n <= max;
        // The dummy input device captures silence.
        for c in 0..r.channel_count() {
            self.silent_ok &= r.sample(c, 0) == vec![0u8; r.bytes_per_sample()];
            self.silent_ok &= r.sample(c, n - 1) == vec![0u8; r.bytes_per_sample()];
        }
        // The captured window is caller-visible memory: writes to it stick
        // and touch nothing else.
        let v = 0x1234i16.to_le_bytes().to_vec();
        r.set_sample(0, 1, &v);
        self.silent_ok &= r.sample(0, 1) == v;
        self.silent_ok &= r.sample(1, 1) == vec![0u8; 2];
        self.silent_ok &= r.sample(0, 2) == vec![0u8; 2];
    }

    fn on_overflow(&mut self) {}

    fn on_error(&mut self, _err: Error) {}
}

#[test]
fn scenario_instream_reads_silence() {
    let dev = dummy_input_device();
    let layout = ChannelLayout::get_default(2);
    let mut stream = dev
        .open_instream(
            48000,
            Format::S16LE,
            &layout,
            0,
            Capture { calls: 0, silent_ok: true, bounds_ok: true },
        )
        .unwrap();
    stream.start().unwrap();
    stream.run_period().unwrap();
    let cap = stream.callbacks();
    assert_eq!(cap.calls, 2);
    assert!(cap.silent_ok);
    assert!(cap.bounds_ok);
}

#[test]
fn open_instream_rejects_output_device() {
    let out_dev = dummy_output_device();
    let layout = ChannelLayout::get_default(2);
    assert_eq!(
        out_dev
            .open_instream(
                48000,
                Format::S16LE,
                &layout,
                0,
                Capture { calls: 0, silent_ok: true, bounds_ok: true },
            )
            .err(),
        Some(Error::Invalid)
    );
}

struct MinimalWriter {
    begun: bool,
}

impl OutStreamCallbacks for MinimalWriter {
    fn on_write(&mut self, w: &mut OutStreamWriter) {
        // Begin with the least permitted count and commit by returning:
        // within bounds this never panics.
        let n = w.frame_count_min();
        w.begin_write(n).unwrap();
        self.begun = true;
    }

    fn on_underflow(&mut self) {}

    fn on_error(&mut self, _err: Error) {}
}

#[test]
fn begin_write_within_bounds_then_commit() {
    let dev = dummy_output_device();
    let layout = ChannelLayout::get_default(2);
    let mut stream = dev
        .open_outstream(48000, Format::Float32LE, &layout, 0, MinimalWriter { begun: false })
        .unwrap();
    stream.start().unwrap();
    assert!(stream.callbacks().begun);
}
