//! Output streams and the realtime buffer-write protocol.
//!
//! A stream is opened from a [`Device`] with a caller-supplied callback
//! set. Each period the engine builds a fresh [`OutStreamWriter`] — the
//! cursor over this period's buffer window — and hands it to the write
//! callback. The callback begins a write for a frame count within the
//! advertised bounds, fills samples through the cursor, and the window is
//! committed exactly once, after the callback returns, iff the write was
//! begun. The cursor's begin/commit discipline and the sample addressing
//! (base + frame * stride, channels not necessarily contiguous) are fully
//! specified and verified here.

use vstd::prelude::*;

use crate::device::Device;
use crate::error::Error;
use crate::error::Result;
use crate::format::Format;
use crate::format::spec_bytes_per_sample;
use crate::layout::ChannelLayout;
use crate::layout::contains_layout;
use crate::types::DeviceAim;

verus! {

/// The most channels any stream can carry.
pub const MAX_CHANNELS: usize = 24;

/// The number of frames in one engine period: each callback invocation
/// advertises a window of at most this many frames.
pub const PERIOD_FRAMES: usize = 512;

/// The sample bytes all zero, as a window starts out.
pub open spec fn silence(len: int) -> Seq<u8> {
    Seq::new(len as nat, |i: int| 0u8)
}

/// The callbacks a caller registers when opening an output stream. The
/// engine invokes them from its period dispatch; the library promises
/// nothing about what they do and keeps its own guarantees whatever they
/// do.
pub trait OutStreamCallbacks {
    /// The mandatory write callback, invoked once per period with a fresh
    /// cursor: a writer whose window has not been begun. The callback may
    /// begin a write for any frame count within the advertised bounds and
    /// fill samples through the cursor; whatever it began is committed
    /// exactly once after it returns.
    fn on_write(&mut self, writer: &mut OutStreamWriter)
        requires
            old(writer).wf(),
            !old(writer).spec_write_started(),
    ;

    /// Called when the output buffer ran dry because the callback did not
    /// keep pace with the audio clock.
    fn on_underflow(&mut self);

    /// Called when the stream hit an unrecoverable streaming error; the
    /// stream must be destroyed and rebuilt.
    fn on_error(&mut self, err: Error);
}

/// The per-invocation cursor over one period's buffer window.
///
/// A fresh cursor advertises `frame_count_min()..=frame_count_max()`;
/// [`OutStreamWriter::begin_write`] may be called once, with a frame count
/// in those bounds, and grants the window. Samples are then written
/// through [`OutStreamWriter::set_sample`], which addresses byte
/// `frame * stride` past each channel's base — the channels of one frame
/// are interleaved, so the stride is the frame size, not the sample size.
pub struct OutStreamWriter {
    frame_count_min: usize,
    frame_count_max: usize,
    channel_count: usize,
    bytes_per_sample: usize,
    step: usize,
    sample_rate: i32,
    latency_nanos: u64,
    write_started: bool,
    frame_count: usize,
    buf: Vec<u8>,
}

impl OutStreamWriter {
    /// A well-formed cursor: sane sample and channel geometry, an
    /// interleaved stride, bounds within one engine period, and — once a
    /// write is begun — a buffer of exactly the granted window's size.
    pub closed spec fn wf(self) -> bool {
        &&& 1 <= self.bytes_per_sample <= 8
        &&& 1 <= self.channel_count <= MAX_CHANNELS
        &&& self.step == self.bytes_per_sample * self.channel_count
        &&& self.step <= 192
        &&& self.frame_count_min <= self.frame_count_max <= PERIOD_FRAMES
        &&& if self.write_started {
            &&& self.frame_count_min <= self.frame_count <= self.frame_count_max
            &&& self.buf@.len() == self.frame_count * self.step
        } else {
            self.frame_count == 0 && self.buf@.len() == 0
        }
    }

    /// The least frame count a write may be begun with this period.
    pub closed spec fn spec_frame_count_min(self) -> usize {
        self.frame_count_min
    }

    /// The greatest frame count a write may be begun with this period.
    pub closed spec fn spec_frame_count_max(self) -> usize {
        self.frame_count_max
    }

    /// Whether a write window has been begun on this cursor.
    pub closed spec fn spec_write_started(self) -> bool {
        self.write_started
    }

    /// The granted frame count of the begun window.
    pub closed spec fn spec_frame_count(self) -> usize {
        self.frame_count
    }

    /// The number of channels of the stream this cursor writes.
    pub closed spec fn spec_channel_count(self) -> usize {
        self.channel_count
    }

    /// The storage size of one sample, in bytes.
    pub closed spec fn spec_bytes_per_sample(self) -> usize {
        self.bytes_per_sample
    }

    /// The byte stride between consecutive frames of one channel.
    pub closed spec fn spec_step(self) -> usize {
        self.step
    }

    /// The stream's sample rate, in frames per second.
    pub closed spec fn spec_sample_rate(self) -> i32 {
        self.sample_rate
    }

    /// The stream's negotiated software latency, in nanoseconds.
    pub closed spec fn spec_latency_nanos(self) -> u64 {
        self.latency_nanos
    }

    /// The bytes of the sample at (channel, frame) in the begun window.
    pub closed spec fn spec_sample_at(self, channel: int, frame: int) -> Seq<u8> {
        let off = frame * self.step + channel * self.bytes_per_sample;
        self.buf@.subrange(off, off + self.bytes_per_sample)
    }

    /// A fresh cursor for one period, with no window begun.
    pub(crate) fn new(
        frame_count_min: usize,
        frame_count_max: usize,
        channel_count: usize,
        bytes_per_sample: usize,
        sample_rate: i32,
        latency_nanos: u64,
    ) -> (w: OutStreamWriter)
        requires
            1 <= bytes_per_sample <= 8,
            1 <= channel_count <= MAX_CHANNELS,
            frame_count_min <= frame_count_max <= PERIOD_FRAMES,
        ensures
            w.wf(),
            !w.spec_write_started(),
            w.spec_frame_count_min() == frame_count_min,
            w.spec_frame_count_max() == frame_count_max,
            w.spec_channel_count() == channel_count,
            w.spec_bytes_per_sample() == bytes_per_sample,
            w.spec_sample_rate() == sample_rate,
            w.spec_latency_nanos() == latency_nanos,
    {
        proof {
            assert(bytes_per_sample * channel_count <= 192) by (nonlinear_arith)
                requires
                    1 <= bytes_per_sample <= 8,
                    1 <= channel_count <= 24,
            ;
        }
        OutStreamWriter {
            frame_count_min,
            frame_count_max,
            channel_count,
            bytes_per_sample,
            step: bytes_per_sample * channel_count,
            sample_rate,
            latency_nanos,
            write_started: false,
            frame_count: 0,
            buf: Vec::new(),
        }
    }

    /// Begin the write window for this period. May be called at most once
    /// per cursor, with a frame count within the advertised bounds —
    /// violating either is a caller error, not a recoverable failure. The
    /// engine grants the requested count in full (callers of a portable
    /// API must still re-check [`OutStreamWriter::frame_count`] rather
    /// than assume it), and the window starts out silent.
    pub fn begin_write(&mut self, frame_count: usize) -> (r: Result<()>)
        requires
            old(self).wf(),
            !old(self).spec_write_started(),
            old(self).spec_frame_count_min() <= frame_count <= old(self).spec_frame_count_max(),
        ensures
            r == Result::<()>::Ok(()),
            final(self).wf(),
            final(self).spec_write_started(),
            final(self).spec_frame_count() == frame_count,
            final(self).spec_frame_count_min() == old(self).spec_frame_count_min(),
            final(self).spec_frame_count_max() == old(self).spec_frame_count_max(),
            final(self).spec_channel_count() == old(self).spec_channel_count(),
            final(self).spec_bytes_per_sample() == old(self).spec_bytes_per_sample(),
            final(self).spec_sample_rate() == old(self).spec_sample_rate(),
            final(self).spec_latency_nanos() == old(self).spec_latency_nanos(),
            forall|c: int, f: int|
                0 <= c < final(self).spec_channel_count() && 0 <= f < frame_count
                    ==> final(self).spec_sample_at(c, f) == silence(
                    final(self).spec_bytes_per_sample() as int,
                ),
    {
        proof {
            assert(frame_count * self.step <= 512 * 192) by (nonlinear_arith)
                requires
                    frame_count <= 512,
                    self.step <= 192,
            ;
        }
        let len = frame_count * self.step;
        self.buf = vec![0u8; len];
        self.frame_count = frame_count;
        self.write_started = true;
        proof {
            assert forall|c: int, f: int|
                0 <= c < self.spec_channel_count() && 0 <= f
                    < frame_count implies self.spec_sample_at(c, f) == silence(
                self.spec_bytes_per_sample() as int,
            ) by {
                lemma_sample_offset_in_window(
                    self.bytes_per_sample as int,
                    self.channel_count as int,
                    self.step as int,
                    self.frame_count as int,
                    c,
                    f,
                );
                assert(self.spec_sample_at(c, f) =~= silence(self.spec_bytes_per_sample() as int));
            }
        }
        Ok(())
    }

    /// The least frame count a write may be begun with this period.
    pub fn frame_count_min(&self) -> (r: usize)
        ensures
            r == self.spec_frame_count_min(),
    {
        self.frame_count_min
    }

    /// The greatest frame count a write may be begun with this period.
    pub fn frame_count_max(&self) -> (r: usize)
        ensures
            r == self.spec_frame_count_max(),
    {
        self.frame_count_max
    }

    /// Whether a write window has been begun on this cursor.
    pub fn write_begun(&self) -> (r: bool)
        ensures
            r == self.spec_write_started(),
    {
        self.write_started
    }

    /// The granted frame count of the begun window. The engine may grant
    /// fewer frames than were requested, so callers must take this as the
    /// authoritative count. Calling this before a write was begun is a
    /// caller error.
    pub fn frame_count(&self) -> (r: usize)
        requires
            self.spec_write_started(),
        ensures
            r == self.spec_frame_count(),
    {
        self.frame_count
    }

    /// The number of channels of the stream this cursor writes.
    pub fn channel_count(&self) -> (r: usize)
        ensures
            r == self.spec_channel_count(),
    {
        self.channel_count
    }

    /// The storage size of one sample, in bytes.
    pub fn bytes_per_sample(&self) -> (r: usize)
        ensures
            r == self.spec_bytes_per_sample(),
    {
        self.bytes_per_sample
    }

    /// The byte stride between consecutive frames of one channel. The
    /// channels of a frame are interleaved, so this is the frame size;
    /// writers must respect it rather than assume it equals the sample
    /// size.
    pub fn step(&self) -> (r: usize)
        ensures
            r == self.spec_step(),
    {
        self.step
    }

    /// The stream's sample rate, in frames per second.
    pub fn sample_rate(&self) -> (r: i32)
        ensures
            r == self.spec_sample_rate(),
    {
        self.sample_rate
    }

    /// The stream's negotiated software latency, in nanoseconds.
    pub fn software_latency(&self) -> (r: u64)
        ensures
            r == self.spec_latency_nanos(),
    {
        self.latency_nanos
    }

    /// The total latency until the next written frame becomes audible, in
    /// nanoseconds. Only callable from within the write callback.
    pub fn get_latency(&self) -> (r: Result<u64>)
        ensures
            r == Result::<u64>::Ok(self.spec_latency_nanos()),
    {
        Ok(self.latency_nanos)
    }

    /// Write the bytes of one sample at (channel, frame): the sample's
    /// storage-size bytes, placed `frame * stride` past the channel's
    /// base. Out-of-range indices or a wrongly sized sample are caller
    /// errors. Every other sample of the window is untouched.
    pub fn set_sample(&mut self, channel: usize, frame: usize, sample: &[u8])
        requires
            old(self).wf(),
            old(self).spec_write_started(),
            channel < old(self).spec_channel_count(),
            frame < old(self).spec_frame_count(),
            sample@.len() == old(self).spec_bytes_per_sample(),
        ensures
            final(self).wf(),
            final(self).spec_sample_at(channel as int, frame as int) == sample@,
            forall|c: int, f: int|
                0 <= c < final(self).spec_channel_count() && 0 <= f < final(self).spec_frame_count() && !(c == channel && f == frame) ==> final(self).spec_sample_at(
                    c,
                    f,
                ) == old(self).spec_sample_at(c, f),
            final(self).spec_write_started() == old(self).spec_write_started(),
            final(self).spec_frame_count() == old(self).spec_frame_count(),
            final(self).spec_frame_count_min() == old(self).spec_frame_count_min(),
            final(self).spec_frame_count_max() == old(self).spec_frame_count_max(),
            final(self).spec_channel_count() == old(self).spec_channel_count(),
            final(self).spec_bytes_per_sample() == old(self).spec_bytes_per_sample(),
            final(self).spec_sample_rate() == old(self).spec_sample_rate(),
            final(self).spec_latency_nanos() == old(self).spec_latency_nanos(),
    {
        proof {
            lemma_sample_offset_in_window(
                self.bytes_per_sample as int,
                self.channel_count as int,
                self.step as int,
                self.frame_count as int,
                channel as int,
                frame as int,
            );
        }
        let base = frame * self.step + channel * self.bytes_per_sample;
        let ghost orig = self.buf@;
        let mut k: usize = 0;
        while k < self.bytes_per_sample
            invariant
                self.wf(),
                self.spec_write_started(),
                k <= self.bytes_per_sample,
                sample@.len() == self.bytes_per_sample,
                base + self.bytes_per_sample <= self.buf@.len(),
                base + self.bytes_per_sample <= 98304,
                base == frame * self.step + channel * self.bytes_per_sample,
                self.buf@.len() == orig.len(),
                forall|j: int| 0 <= j < k ==> self.buf@[base + j] == sample@[j],
                forall|j: int|
                    0 <= j < orig.len() && !(base <= j < base + k) ==> self.buf@[j] == orig[j],
                self.frame_count == old(self).frame_count,
                self.frame_count_min == old(self).frame_count_min,
                self.frame_count_max == old(self).frame_count_max,
                self.channel_count == old(self).channel_count,
                self.bytes_per_sample == old(self).bytes_per_sample,
                self.step == old(self).step,
                self.sample_rate == old(self).sample_rate,
                self.latency_nanos == old(self).latency_nanos,
                self.write_started == old(self).write_started,
            decreases self.bytes_per_sample - k,
        {
            let b = sample[k];
            self.buf.set(base + k, b);
            k += 1;
        }
        proof {
            assert(self.spec_sample_at(channel as int, frame as int) =~= sample@);
            assert forall|c: int, f: int|
                0 <= c < self.spec_channel_count() && 0 <= f < self.spec_frame_count() && !(c
                    == channel && f == frame) implies self.spec_sample_at(c, f) == old(self).spec_sample_at(c, f) by {
                lemma_sample_offset_in_window(
                    self.bytes_per_sample as int,
                    self.channel_count as int,
                    self.step as int,
                    self.frame_count as int,
                    c,
                    f,
                );
                lemma_sample_offsets_disjoint(
                    self.bytes_per_sample as int,
                    self.channel_count as int,
                    self.step as int,
                    c,
                    f,
                    channel as int,
                    frame as int,
                );
                assert(self.spec_sample_at(c, f) =~= old(self).spec_sample_at(c, f));
            }
        }
    }

    /// Read back the bytes of one sample at (channel, frame).
    /// Out-of-range indices are caller errors.
    pub fn sample(&self, channel: usize, frame: usize) -> (r: Vec<u8>)
        requires
            self.wf(),
            self.spec_write_started(),
            channel < self.spec_channel_count(),
            frame < self.spec_frame_count(),
        ensures
            r@ == self.spec_sample_at(channel as int, frame as int),
    {
        proof {
            lemma_sample_offset_in_window(
                self.bytes_per_sample as int,
                self.channel_count as int,
                self.step as int,
                self.frame_count as int,
                channel as int,
                frame as int,
            );
        }
        let base = frame * self.step + channel * self.bytes_per_sample;
        let mut out: Vec<u8> = Vec::new();
        let mut k: usize = 0;
        while k < self.bytes_per_sample
            invariant
                self.wf(),
                self.spec_write_started(),
                k <= self.bytes_per_sample,
                base + self.bytes_per_sample <= self.buf@.len(),
                base + self.bytes_per_sample <= 98304,
                base == frame * self.step + channel * self.bytes_per_sample,
                out@.len() == k,
                forall|j: int| 0 <= j < k ==> out@[j] == self.buf@[base + j],
            decreases self.bytes_per_sample - k,
        {
            let b = self.buf[base + k];
            out.push(b);
            k += 1;
        }
        proof {
            assert(out@ =~= self.spec_sample_at(channel as int, frame as int));
        }
        out
    }
}

/// The byte range of the sample at (channel, frame) lies inside the begun
/// window's buffer, whose size is itself far below the machine's limits.
pub(crate) proof fn lemma_sample_offset_in_window(bps: int, cc: int, step: int, fc: int, c: int, f: int)
    requires
        0 < bps,
        0 < cc,
        step == bps * cc,
        step <= 192,
        0 <= c < cc,
        0 <= f < fc,
        fc <= 512,
    ensures
        0 <= f * step + c * bps,
        f * step + c * bps + bps <= fc * step,
        fc * step <= 98304,
{
    assert(0 <= f * step + c * bps && f * step + c * bps + bps <= fc * step && fc * step
        <= 98304) by (nonlinear_arith)
        requires
            0 < bps,
            0 < cc,
            step == bps * cc,
            step <= 192,
            0 <= c < cc,
            0 <= f < fc,
            fc <= 512,
    ;
}

/// The byte ranges of two distinct (channel, frame) samples are disjoint:
/// one ends at or before the other begins.
pub(crate) proof fn lemma_sample_offsets_disjoint(
    bps: int,
    cc: int,
    step: int,
    c1: int,
    f1: int,
    c2: int,
    f2: int,
)
    requires
        0 < bps,
        0 < cc,
        step == bps * cc,
        0 <= c1 < cc,
        0 <= c2 < cc,
        0 <= f1,
        0 <= f2,
        !(c1 == c2 && f1 == f2),
    ensures
        f1 * step + c1 * bps + bps <= f2 * step + c2 * bps || f2 * step + c2 * bps + bps <= f1
            * step + c1 * bps,
{
    assert(f1 * step + c1 * bps + bps <= f2 * step + c2 * bps || f2 * step + c2 * bps + bps <= f1
        * step + c1 * bps) by (nonlinear_arith)
        requires
            0 < bps,
            0 < cc,
            step == bps * cc,
            0 <= c1 < cc,
            0 <= c2 < cc,
            0 <= f1,
            0 <= f2,
            !(c1 == c2 && f1 == f2),
    ;
}

/// The software latency one open negotiates, in nanoseconds: a request of
/// zero takes the device's current figure; anything else is clamped into
/// the device's bounds.
pub open spec fn negotiated_latency_nanos(d: Device, requested: u64) -> u64 {
    if requested == 0 {
        d.software_latency.current
    } else if requested < d.software_latency.min {
        d.software_latency.min
    } else if requested > d.software_latency.max {
        d.software_latency.max
    } else {
        requested
    }
}

/// Clamp a requested latency into the device's bounds; zero asks for the
/// device's current figure.
pub(crate) fn negotiate_latency(d: &Device, requested: u64) -> (r: u64)
    ensures
        r == negotiated_latency_nanos(*d, requested),
{
    if requested == 0 {
        d.software_latency.current
    } else if requested < d.software_latency.min {
        d.software_latency.min
    } else if requested > d.software_latency.max {
        d.software_latency.max
    } else {
        requested
    }
}

/// An open output stream, bound to one device, with its negotiated
/// configuration and the caller's registered callbacks.
///
/// The engine's period cadence is driven through
/// [`OutStream::run_period`]: each call stands for one period boundary of
/// the realtime thread and invokes the write callback with a fresh
/// cursor. [`OutStream::start`] begins the cadence and may itself
/// synchronously invoke the callback.
pub struct OutStream<CB> {
    callbacks: CB,
    format: Format,
    sample_rate: i32,
    channel_count: usize,
    latency_nanos: u64,
    started: bool,
    paused: bool,
    queued_frames: u64,
}

/// The committed-frame counter after one period: a begun window adds its
/// granted frame count (topping out at the counter's maximum); an
/// un-begun window commits nothing.
pub open spec fn queued_frames_after(queued: u64, w: OutStreamWriter) -> int {
    if w.spec_write_started() {
        if queued + w.spec_frame_count() <= u64::MAX {
            queued + w.spec_frame_count()
        } else {
            u64::MAX as int
        }
    } else {
        queued as int
    }
}

/// One period boundary dispatched between the stream states `pre` and
/// `post`, through the callback object `cb` and the cursor `w` of one
/// admitted `CB::on_write` call whose outcomes are `cb_after` and
/// `w_after`: the cursor started fresh, with no window begun, the
/// period's advertised bounds of 0 and [`PERIOD_FRAMES`], and the
/// stream's own channel count, sample size, rate and latency; the
/// callback object was the stream's registered one and ends as the
/// stream's new one; and the committed-frame counter accounts for exactly
/// the window the callback left begun — committed once iff begun, and
/// never otherwise.
pub open spec fn write_period_call<CB: OutStreamCallbacks>(
    pre: OutStream<CB>,
    post: OutStream<CB>,
    cb: &mut CB,
    w: &mut OutStreamWriter,
    cb_after: CB,
    w_after: OutStreamWriter,
) -> bool {
    &&& mut_ref_current(w).wf()
    &&& !mut_ref_current(w).spec_write_started()
    &&& mut_ref_current(w).spec_frame_count_min() == 0
    &&& mut_ref_current(w).spec_frame_count_max() == PERIOD_FRAMES
    &&& mut_ref_current(w).spec_channel_count() == pre.spec_channel_count()
    &&& mut_ref_current(w).spec_bytes_per_sample() as int == spec_bytes_per_sample(
        pre.spec_format(),
    )
    &&& mut_ref_current(w).spec_sample_rate() == pre.spec_sample_rate()
    &&& mut_ref_current(w).spec_latency_nanos() == pre.spec_latency_nanos()
    &&& mut_ref_current(cb) == pre.spec_callbacks()
    &&& cb_after == post.spec_callbacks()
    &&& post.spec_queued_frames() as int == queued_frames_after(pre.spec_queued_frames(), w_after)
}

impl<CB: OutStreamCallbacks> OutStream<CB> {
    /// A well-formed stream: a valid sample format and a channel count
    /// one period's cursor can carry.
    pub closed spec fn wf(self) -> bool {
        &&& 1 <= spec_bytes_per_sample(self.format) <= 8
        &&& 1 <= self.channel_count <= MAX_CHANNELS
    }

    /// The negotiated sample format.
    pub closed spec fn spec_format(self) -> Format {
        self.format
    }

    /// The negotiated sample rate, in frames per second.
    pub closed spec fn spec_sample_rate(self) -> i32 {
        self.sample_rate
    }

    /// The stream's channel count.
    pub closed spec fn spec_channel_count(self) -> usize {
        self.channel_count
    }

    /// The negotiated software latency, in nanoseconds.
    pub closed spec fn spec_latency_nanos(self) -> u64 {
        self.latency_nanos
    }

    /// Whether the period cadence has been started.
    pub closed spec fn spec_started(self) -> bool {
        self.started
    }

    /// Whether the stream is paused.
    pub closed spec fn spec_paused(self) -> bool {
        self.paused
    }

    /// The number of frames committed into the engine's buffer and not
    /// yet cleared (saturating).
    pub closed spec fn spec_queued_frames(self) -> u64 {
        self.queued_frames
    }

    /// The caller's registered callback set.
    pub closed spec fn spec_callbacks(self) -> CB {
        self.callbacks
    }

    /// The caller's registered callback set, for inspection.
    pub fn callbacks(&self) -> (r: &CB)
        ensures
            *r == self.spec_callbacks(),
    {
        &self.callbacks
    }

    /// Start the period cadence. On an unpaused stream the first period
    /// runs synchronously: the write callback is invoked before this
    /// returns. Starting an already started stream is refused with
    /// [`Error::Invalid`] and changes nothing.
    pub fn start(&mut self) -> (r: Result<()>)
        requires
            old(self).wf(),
        ensures
            final(self).wf(),
            old(self).spec_started() ==> r == Result::<()>::Err(Error::Invalid) && *final(self)
                == *old(self),
            !old(self).spec_started() ==> r == Result::<()>::Ok(()) && final(self).spec_started(),
            !old(self).spec_started() && !old(self).spec_paused() ==> (exists|
                cb: &mut CB,
                w: &mut OutStreamWriter,
            |
                #[trigger] call_ensures(CB::on_write, (cb, w), ()) && write_period_call(
                    *old(self),
                    *final(self),
                    cb,
                    w,
                    mut_ref_future(cb),
                    mut_ref_future(w),
                )),
            final(self).spec_format() == old(self).spec_format(),
            final(self).spec_sample_rate() == old(self).spec_sample_rate(),
            final(self).spec_channel_count() == old(self).spec_channel_count(),
            final(self).spec_latency_nanos() == old(self).spec_latency_nanos(),
            final(self).spec_paused() == old(self).spec_paused(),
            final(self).spec_queued_frames() >= old(self).spec_queued_frames(),
    {
        if self.started {
            return Err(Error::Invalid);
        }
        self.started = true;
        self.run_period()
    }

    /// Run one period boundary of the engine's realtime cadence: unless
    /// the stream is paused, build a fresh cursor bounded by this
    /// period's frame counts, invoke the write callback with it, and
    /// commit whatever window the callback began — exactly once, and only
    /// if a write was begun; [`write_period_call`] states all of
    /// this of the old and new stream state. Running a never-started
    /// stream is refused with [`Error::Invalid`].
    pub fn run_period(&mut self) -> (r: Result<()>)
        requires
            old(self).wf(),
        ensures
            final(self).wf(),
            old(self).spec_started() ==> r == Result::<()>::Ok(()),
            !old(self).spec_started() ==> r == Result::<()>::Err(Error::Invalid) && *final(self)
                == *old(self),
            old(self).spec_started() && !old(self).spec_paused() ==> (exists|
                cb: &mut CB,
                w: &mut OutStreamWriter,
            |
                #[trigger] call_ensures(CB::on_write, (cb, w), ()) && write_period_call(
                    *old(self),
                    *final(self),
                    cb,
                    w,
                    mut_ref_future(cb),
                    mut_ref_future(w),
                )),
            final(self).spec_format() == old(self).spec_format(),
            final(self).spec_sample_rate() == old(self).spec_sample_rate(),
            final(self).spec_channel_count() == old(self).spec_channel_count(),
            final(self).spec_latency_nanos() == old(self).spec_latency_nanos(),
            final(self).spec_started() == old(self).spec_started(),
            final(self).spec_paused() == old(self).spec_paused(),
            final(self).spec_queued_frames() >= old(self).spec_queued_frames(),
            old(self).spec_paused() ==> final(self).spec_queued_frames() == old(self).spec_queued_frames(),
    {
        if !self.started {
            return Err(Error::Invalid);
        }
        if self.paused {
            return Ok(());
        }
        let bps = self.format.bytes_per_sample();
        let mut writer = OutStreamWriter::new(
            0,
            PERIOD_FRAMES,
            self.channel_count,
            bps,
            self.sample_rate,
            self.latency_nanos,
        );
        self.callbacks.on_write(&mut writer);
        if writer.write_begun() {
            let granted = writer.frame_count();
            self.queued_frames = saturating_add_u64(self.queued_frames, granted as u64);
        }
        Ok(())
    }

    /// Pause or resume the stream. Pausing an already paused stream, or
    /// resuming an already running one, is a successful no-op: the second
    /// call returns `Ok` just as the first did.
    pub fn pause(&mut self, pause: bool) -> (r: Result<()>)
        requires
            old(self).wf(),
        ensures
            r == Result::<()>::Ok(()),
            final(self).wf(),
            final(self).spec_paused() == pause,
            final(self).spec_format() == old(self).spec_format(),
            final(self).spec_sample_rate() == old(self).spec_sample_rate(),
            final(self).spec_channel_count() == old(self).spec_channel_count(),
            final(self).spec_latency_nanos() == old(self).spec_latency_nanos(),
            final(self).spec_started() == old(self).spec_started(),
            final(self).spec_queued_frames() == old(self).spec_queued_frames(),
            final(self).spec_callbacks() == old(self).spec_callbacks(),
    {
        self.paused = pause;
        Ok(())
    }

    /// Drop buffered-but-unplayed audio. May be called whether the stream
    /// is paused or not; this engine's device supports it.
    pub fn clear_buffer(&mut self) -> (r: Result<()>)
        requires
            old(self).wf(),
        ensures
            r == Result::<()>::Ok(()),
            final(self).wf(),
            final(self).spec_queued_frames() == 0,
            final(self).spec_format() == old(self).spec_format(),
            final(self).spec_sample_rate() == old(self).spec_sample_rate(),
            final(self).spec_channel_count() == old(self).spec_channel_count(),
            final(self).spec_latency_nanos() == old(self).spec_latency_nanos(),
            final(self).spec_started() == old(self).spec_started(),
            final(self).spec_paused() == old(self).spec_paused(),
            final(self).spec_callbacks() == old(self).spec_callbacks(),
    {
        self.queued_frames = 0;
        Ok(())
    }

    /// The negotiated sample format.
    pub fn format(&self) -> (r: Format)
        ensures
            r == self.spec_format(),
    {
        self.format
    }

    /// The negotiated sample rate, in frames per second.
    pub fn sample_rate(&self) -> (r: i32)
        ensures
            r == self.spec_sample_rate(),
    {
        self.sample_rate
    }

    /// The negotiated software latency, in nanoseconds.
    pub fn software_latency(&self) -> (r: u64)
        ensures
            r == self.spec_latency_nanos(),
    {
        self.latency_nanos
    }

    /// The number of bytes per frame: one sample for every channel.
    pub fn bytes_per_frame(&self) -> (r: i32)
        requires
            self.wf(),
        ensures
            r as int == spec_bytes_per_sample(self.spec_format()) * self.spec_channel_count(),
    {
        proof {
            assert(spec_bytes_per_sample(self.format) * self.channel_count <= 192)
                by (nonlinear_arith)
                requires
                    1 <= spec_bytes_per_sample(self.format) <= 8,
                    1 <= self.channel_count <= 24,
            ;
        }
        (self.format.bytes_per_sample() * self.channel_count) as i32
    }

    /// The storage size of one sample, in bytes.
    pub fn bytes_per_sample(&self) -> (r: i32)
        requires
            self.wf(),
        ensures
            r as int == spec_bytes_per_sample(self.spec_format()),
    {
        self.format.bytes_per_sample() as i32
    }
}

/// Add two frame counters, topping out at the counter's maximum.
pub(crate) fn saturating_add_u64(a: u64, b: u64) -> (r: u64)
    ensures
        r as int == if a + b <= u64::MAX { a + b } else { u64::MAX as int },
{
    if b <= u64::MAX - a {
        a + b
    } else {
        u64::MAX
    }
}

impl Device {
    /// Open an output stream against this device.
    ///
    /// The requested sample rate, format, layout and software latency are
    /// hints: the engine substitutes the nearest supported sample rate
    /// and clamps the latency into the device's bounds, so callers must
    /// read the negotiated values back from the stream rather than assume
    /// the request was honored exactly. The callback set is installed at
    /// open time and invoked from the period cadence once the stream is
    /// started.
    ///
    /// Failures, by category: [`Error::Invalid`] when this is not an
    /// output device, the format is invalid, or the layout's channel
    /// count is zero or above the engine's limit; otherwise
    /// [`Error::IncompatibleDevice`] when the device supports neither the
    /// format nor the layout asked for. A failed open changes nothing and
    /// yields no stream.
    pub fn open_outstream<CB: OutStreamCallbacks>(
        &self,
        sample_rate: i32,
        format: Format,
        layout: &ChannelLayout,
        latency_nanos: u64,
        callbacks: CB,
    ) -> (r: Result<OutStream<CB>>)
        requires
            self.wf(),
        ensures
            ({
                let cc = layout.channels@.len();
                let param_invalid = self.aim != DeviceAim::Output || format == Format::Invalid
                    || cc == 0 || cc > MAX_CHANNELS;
                let unsupported = !self.formats@.contains(format) || !contains_layout(
                    self.layouts@,
                    *layout,
                );
                match r {
                    Ok(s) => {
                        &&& !param_invalid
                        &&& !unsupported
                        &&& s.wf()
                        &&& s.spec_format() == format
                        &&& s.spec_channel_count() == cc
                        &&& self.spec_nearest_rate(sample_rate as int, s.spec_sample_rate() as int)
                        &&& s.spec_latency_nanos() == negotiated_latency_nanos(
                            *self,
                            latency_nanos,
                        )
                        &&& !s.spec_started()
                        &&& !s.spec_paused()
                        &&& s.spec_queued_frames() == 0
                        &&& s.spec_callbacks() == callbacks
                    },
                    Err(e) => {
                        &&& (e == Error::Invalid <==> param_invalid)
                        &&& (e == Error::IncompatibleDevice <==> !param_invalid && unsupported)
                        &&& (e == Error::Invalid || e == Error::IncompatibleDevice)
                    },
                }
            }),
    {
        let cc = layout.channels.len();
        if !matches!(self.aim, DeviceAim::Output) || matches!(format, Format::Invalid) || cc == 0
            || cc > MAX_CHANNELS {
            return Err(Error::Invalid);
        }
        if !self.supports_format(format) || !self.supports_layout(layout) {
            return Err(Error::IncompatibleDevice);
        }
        let rate = self.nearest_sample_rate(sample_rate);
        let latency = negotiate_latency(self, latency_nanos);
        Ok(
            OutStream {
                callbacks,
                format,
                sample_rate: rate,
                channel_count: cc,
                latency_nanos: latency,
                started: false,
                paused: false,
                queued_frames: 0,
            },
        )
    }
}

} // verus!
