//! Input streams and the realtime buffer-read protocol.
//!
//! The mirror image of the output side: a stream is opened from a
//! [`Device`] with a caller-supplied callback set, and each period the
//! engine builds a fresh [`InStreamReader`] — the cursor over this
//! period's captured window — and hands it to the read callback. The
//! callback begins a read for a frame count within the advertised bounds,
//! consumes samples through the cursor, and the window is committed
//! exactly once, after the callback returns, iff the read was begun.

use vstd::prelude::*;

use crate::device::Device;
use crate::error::Error;
use crate::error::Result;
use crate::format::Format;
use crate::format::spec_bytes_per_sample;
use crate::layout::ChannelLayout;
use crate::layout::contains_layout;
use crate::outstream::MAX_CHANNELS;
use crate::outstream::PERIOD_FRAMES;
use crate::outstream::lemma_sample_offset_in_window;
use crate::outstream::lemma_sample_offsets_disjoint;
use crate::outstream::negotiated_latency_nanos;
use crate::outstream::negotiate_latency;
use crate::outstream::saturating_add_u64;
use crate::outstream::silence;
use crate::types::DeviceAim;

verus! {

/// The callbacks a caller registers when opening an input stream. The
/// engine invokes them from its period dispatch; the library promises
/// nothing about what they do and keeps its own guarantees whatever they
/// do.
pub trait InStreamCallbacks {
    /// The mandatory read callback, invoked once per period with a fresh
    /// cursor: a reader whose window has not been begun. The callback may
    /// begin a read for any frame count within the advertised bounds and
    /// consume samples through the cursor; whatever it began is committed
    /// exactly once after it returns.
    fn on_read(&mut self, reader: &mut InStreamReader)
        requires
            old(reader).wf(),
            !old(reader).spec_read_started(),
    ;

    /// Called when the input buffer overran because the callback did not
    /// keep pace with the audio clock.
    fn on_overflow(&mut self);

    /// Called when the stream hit an unrecoverable streaming error; the
    /// stream must be destroyed and rebuilt.
    fn on_error(&mut self, err: Error);
}

/// The per-invocation cursor over one period's captured window.
///
/// A fresh cursor advertises `frame_count_min()..=frame_count_max()`;
/// [`InStreamReader::begin_read`] may be called once, with a frame count
/// in those bounds, and grants the window. Samples are then read through
/// [`InStreamReader::sample`], which addresses byte `frame * stride` past
/// each channel's base — the channels of one frame are interleaved, so
/// the stride is the frame size, not the sample size.
pub struct InStreamReader {
    frame_count_min: usize,
    frame_count_max: usize,
    channel_count: usize,
    bytes_per_sample: usize,
    step: usize,
    sample_rate: i32,
    latency_nanos: u64,
    read_started: bool,
    frame_count: usize,
    buf: Vec<u8>,
}

impl InStreamReader {
    /// A well-formed cursor: sane sample and channel geometry, an
    /// interleaved stride, bounds within one engine period, and — once a
    /// read is begun — a buffer of exactly the granted window's size.
    pub closed spec fn wf(self) -> bool {
        &&& 1 <= self.bytes_per_sample <= 8
        &&& 1 <= self.channel_count <= MAX_CHANNELS
        &&& self.step == self.bytes_per_sample * self.channel_count
        &&& self.step <= 192
        &&& self.frame_count_min <= self.frame_count_max <= PERIOD_FRAMES
        &&& if self.read_started {
            &&& self.frame_count_min <= self.frame_count <= self.frame_count_max
            &&& self.buf@.len() == self.frame_count * self.step
        } else {
            self.frame_count == 0 && self.buf@.len() == 0
        }
    }

    /// The least frame count a read may be begun with this period.
    pub closed spec fn spec_frame_count_min(self) -> usize {
        self.frame_count_min
    }

    /// The greatest frame count a read may be begun with this period.
    pub closed spec fn spec_frame_count_max(self) -> usize {
        self.frame_count_max
    }

    /// Whether a read window has been begun on this cursor.
    pub closed spec fn spec_read_started(self) -> bool {
        self.read_started
    }

    /// The granted frame count of the begun window.
    pub closed spec fn spec_frame_count(self) -> usize {
        self.frame_count
    }

    /// The number of channels of the stream this cursor reads.
    pub closed spec fn spec_channel_count(self) -> usize {
        self.channel_count
    }

    /// The storage size of one sample, in bytes.
    pub closed spec fn spec_bytes_per_sample(self) -> usize {
        self.bytes_per_sample
    }

    /// The byte stride between consecutive frames of one channel.
    pub closed spec fn spec_step(self) -> usize {
        self.step
    }

    /// The stream's sample rate, in frames per second.
    pub closed spec fn spec_sample_rate(self) -> i32 {
        self.sample_rate
    }

    /// The stream's negotiated software latency, in nanoseconds.
    pub closed spec fn spec_latency_nanos(self) -> u64 {
        self.latency_nanos
    }

    /// The bytes of the sample at (channel, frame) in the begun window.
    pub closed spec fn spec_sample_at(self, channel: int, frame: int) -> Seq<u8> {
        let off = frame * self.step + channel * self.bytes_per_sample;
        self.buf@.subrange(off, off + self.bytes_per_sample)
    }

    /// A fresh cursor for one period, with no window begun.
    pub(crate) fn new(
        frame_count_min: usize,
        frame_count_max: usize,
        channel_count: usize,
        bytes_per_sample: usize,
        sample_rate: i32,
        latency_nanos: u64,
    ) -> (w: InStreamReader)
        requires
            1 <= bytes_per_sample <= 8,
            1 <= channel_count <= MAX_CHANNELS,
            frame_count_min <= frame_count_max <= PERIOD_FRAMES,
        ensures
            w.wf(),
            !w.spec_read_started(),
            w.spec_frame_count_min() == frame_count_min,
            w.spec_frame_count_max() == frame_count_max,
            w.spec_channel_count() == channel_count,
            w.spec_bytes_per_sample() == bytes_per_sample,
            w.spec_sample_rate() == sample_rate,
            w.spec_latency_nanos() == latency_nanos,
    {
        proof {
            assert(bytes_per_sample * channel_count <= 192) by (nonlinear_arith)
                requires
                    1 <= bytes_per_sample <= 8,
                    1 <= channel_count <= 24,
            ;
        }
        InStreamReader {
            frame_count_min,
            frame_count_max,
            channel_count,
            bytes_per_sample,
            step: bytes_per_sample * channel_count,
            sample_rate,
            latency_nanos,
            read_started: false,
            frame_count: 0,
            buf: Vec::new(),
        }
    }

    /// Begin the read window for this period. May be called at most once
    /// per cursor, with a frame count within the advertised bounds —
    /// violating either is a caller error, not a recoverable failure. The
    /// engine grants the requested count in full (callers of a portable
    /// API must still re-check [`InStreamReader::frame_count`] rather
    /// than assume it). The dummy input device captures silence, so the
    /// granted window holds all-zero samples.
    pub fn begin_read(&mut self, frame_count: usize) -> (r: Result<()>)
        requires
            old(self).wf(),
            !old(self).spec_read_started(),
            old(self).spec_frame_count_min() <= frame_count <= old(self).spec_frame_count_max(),
        ensures
            r == Result::<()>::Ok(()),
            final(self).wf(),
            final(self).spec_read_started(),
            final(self).spec_frame_count() == frame_count,
            final(self).spec_frame_count_min() == old(self).spec_frame_count_min(),
            final(self).spec_frame_count_max() == old(self).spec_frame_count_max(),
            final(self).spec_channel_count() == old(self).spec_channel_count(),
            final(self).spec_bytes_per_sample() == old(self).spec_bytes_per_sample(),
            final(self).spec_sample_rate() == old(self).spec_sample_rate(),
            final(self).spec_latency_nanos() == old(self).spec_latency_nanos(),
            forall|c: int, f: int|
                0 <= c < final(self).spec_channel_count() && 0 <= f < frame_count
                    ==> final(self).spec_sample_at(c, f) == silence(
                    final(self).spec_bytes_per_sample() as int,
                ),
    {
        proof {
            assert(frame_count * self.step <= 512 * 192) by (nonlinear_arith)
                requires
                    frame_count <= 512,
                    self.step <= 192,
            ;
        }
        let len = frame_count * self.step;
        self.buf = vec![0u8; len];
        self.frame_count = frame_count;
        self.read_started = true;
        proof {
            assert forall|c: int, f: int|
                0 <= c < self.spec_channel_count() && 0 <= f
                    < frame_count implies self.spec_sample_at(c, f) == silence(
                self.spec_bytes_per_sample() as int,
            ) by {
                lemma_sample_offset_in_window(
                    self.bytes_per_sample as int,
                    self.channel_count as int,
                    self.step as int,
                    self.frame_count as int,
                    c,
                    f,
                );
                assert(self.spec_sample_at(c, f) =~= silence(self.spec_bytes_per_sample() as int));
            }
        }
        Ok(())
    }

    /// The least frame count a read may be begun with this period.
    pub fn frame_count_min(&self) -> (r: usize)
        ensures
            r == self.spec_frame_count_min(),
    {
        self.frame_count_min
    }

    /// The greatest frame count a read may be begun with this period.
    pub fn frame_count_max(&self) -> (r: usize)
        ensures
            r == self.spec_frame_count_max(),
    {
        self.frame_count_max
    }

    /// Whether a read window has been begun on this cursor.
    pub fn read_begun(&self) -> (r: bool)
        ensures
            r == self.spec_read_started(),
    {
        self.read_started
    }

    /// The granted frame count of the begun window. The engine may grant
    /// fewer frames than were requested, so callers must take this as the
    /// authoritative count. Calling this before a read was begun is a
    /// caller error.
    pub fn frame_count(&self) -> (r: usize)
        requires
            self.spec_read_started(),
        ensures
            r == self.spec_frame_count(),
    {
        self.frame_count
    }

    /// The number of channels of the stream this cursor reads.
    pub fn channel_count(&self) -> (r: usize)
        ensures
            r == self.spec_channel_count(),
    {
        self.channel_count
    }

    /// The storage size of one sample, in bytes.
    pub fn bytes_per_sample(&self) -> (r: usize)
        ensures
            r == self.spec_bytes_per_sample(),
    {
        self.bytes_per_sample
    }

    /// The byte stride between consecutive frames of one channel. The
    /// channels of a frame are interleaved, so this is the frame size;
    /// readers must respect it rather than assume it equals the sample
    /// size.
    pub fn step(&self) -> (r: usize)
        ensures
            r == self.spec_step(),
    {
        self.step
    }

    /// The stream's sample rate, in frames per second.
    pub fn sample_rate(&self) -> (r: i32)
        ensures
            r == self.spec_sample_rate(),
    {
        self.sample_rate
    }

    /// The stream's negotiated software latency, in nanoseconds.
    pub fn software_latency(&self) -> (r: u64)
        ensures
            r == self.spec_latency_nanos(),
    {
        self.latency_nanos
    }

    /// The total latency until the next frame read was captured, in
    /// nanoseconds. Only callable from within the read callback.
    pub fn get_latency(&self) -> (r: Result<u64>)
        ensures
            r == Result::<u64>::Ok(self.spec_latency_nanos()),
    {
        Ok(self.latency_nanos)
    }

    /// Overwrite the bytes of one sample at (channel, frame) in the
    /// window — the area is caller-visible memory, so writing it is
    /// permitted, if rarely useful. Out-of-range indices or a wrongly
    /// sized sample are caller errors. Every other sample is untouched.
    pub fn set_sample(&mut self, channel: usize, frame: usize, sample: &[u8])
        requires
            old(self).wf(),
            old(self).spec_read_started(),
            channel < old(self).spec_channel_count(),
            frame < old(self).spec_frame_count(),
            sample@.len() == old(self).spec_bytes_per_sample(),
        ensures
            final(self).wf(),
            final(self).spec_sample_at(channel as int, frame as int) == sample@,
            forall|c: int, f: int|
                0 <= c < final(self).spec_channel_count() && 0 <= f < final(self).spec_frame_count() && !(c == channel && f == frame) ==> final(self).spec_sample_at(
                    c,
                    f,
                ) == old(self).spec_sample_at(c, f),
            final(self).spec_read_started() == old(self).spec_read_started(),
            final(self).spec_frame_count() == old(self).spec_frame_count(),
            final(self).spec_frame_count_min() == old(self).spec_frame_count_min(),
            final(self).spec_frame_count_max() == old(self).spec_frame_count_max(),
            final(self).spec_channel_count() == old(self).spec_channel_count(),
            final(self).spec_bytes_per_sample() == old(self).spec_bytes_per_sample(),
            final(self).spec_sample_rate() == old(self).spec_sample_rate(),
            final(self).spec_latency_nanos() == old(self).spec_latency_nanos(),
    {
        proof {
            lemma_sample_offset_in_window(
                self.bytes_per_sample as int,
                self.channel_count as int,
                self.step as int,
                self.frame_count as int,
                channel as int,
                frame as int,
            );
        }
        let base = frame * self.step + channel * self.bytes_per_sample;
        let ghost orig = self.buf@;
        let mut k: usize = 0;
        while k < self.bytes_per_sample
            invariant
                self.wf(),
                self.spec_read_started(),
                k <= self.bytes_per_sample,
                sample@.len() == self.bytes_per_sample,
                base + self.bytes_per_sample <= self.buf@.len(),
                base + self.bytes_per_sample <= 98304,
                base == frame * self.step + channel * self.bytes_per_sample,
                self.buf@.len() == orig.len(),
                forall|j: int| 0 <= j < k ==> self.buf@[base + j] == sample@[j],
                forall|j: int|
                    0 <= j < orig.len() && !(base <= j < base + k) ==> self.buf@[j] == orig[j],
                self.frame_count == old(self).frame_count,
                self.frame_count_min == old(self).frame_count_min,
                self.frame_count_max == old(self).frame_count_max,
                self.channel_count == old(self).channel_count,
                self.bytes_per_sample == old(self).bytes_per_sample,
                self.step == old(self).step,
                self.sample_rate == old(self).sample_rate,
                self.latency_nanos == old(self).latency_nanos,
                self.read_started == old(self).read_started,
            decreases self.bytes_per_sample - k,
        {
            let b = sample[k];
            self.buf.set(base + k, b);
            k += 1;
        }
        proof {
            assert(self.spec_sample_at(channel as int, frame as int) =~= sample@);
            assert forall|c: int, f: int|
                0 <= c < self.spec_channel_count() && 0 <= f < self.spec_frame_count() && !(c
                    == channel && f == frame) implies self.spec_sample_at(c, f) == old(self).spec_sample_at(c, f) by {
                lemma_sample_offset_in_window(
                    self.bytes_per_sample as int,
                    self.channel_count as int,
                    self.step as int,
                    self.frame_count as int,
                    c,
                    f,
                );
                lemma_sample_offsets_disjoint(
                    self.bytes_per_sample as int,
                    self.channel_count as int,
                    self.step as int,
                    c,
                    f,
                    channel as int,
                    frame as int,
                );
                assert(self.spec_sample_at(c, f) =~= old(self).spec_sample_at(c, f));
            }
        }
    }

    /// Read the bytes of one sample at (channel, frame): the sample's
    /// storage-size bytes, `frame * stride` past the channel's base.
    /// Out-of-range indices are caller errors.
    pub fn sample(&self, channel: usize, frame: usize) -> (r: Vec<u8>)
        requires
            self.wf(),
            self.spec_read_started(),
            channel < self.spec_channel_count(),
            frame < self.spec_frame_count(),
        ensures
            r@ == self.spec_sample_at(channel as int, frame as int),
    {
        proof {
            lemma_sample_offset_in_window(
                self.bytes_per_sample as int,
                self.channel_count as int,
                self.step as int,
                self.frame_count as int,
                channel as int,
                frame as int,
            );
        }
        let base = frame * self.step + channel * self.bytes_per_sample;
        let mut out: Vec<u8> = Vec::new();
        let mut k: usize = 0;
        while k < self.bytes_per_sample
            invariant
                self.wf(),
                self.spec_read_started(),
                k <= self.bytes_per_sample,
                base + self.bytes_per_sample <= self.buf@.len(),
                base + self.bytes_per_sample <= 98304,
                base == frame * self.step + channel * self.bytes_per_sample,
                out@.len() == k,
                forall|j: int| 0 <= j < k ==> out@[j] == self.buf@[base + j],
            decreases self.bytes_per_sample - k,
        {
            let b = self.buf[base + k];
            out.push(b);
            k += 1;
        }
        proof {
            assert(out@ =~= self.spec_sample_at(channel as int, frame as int));
        }
        out
    }
}

/// An open input stream, bound to one device, with its negotiated
/// configuration and the caller's registered callbacks.
///
/// The engine's period cadence is driven through
/// [`InStream::run_period`]: each call stands for one period boundary of
/// the realtime thread and invokes the read callback with a fresh cursor.
/// [`InStream::start`] begins the cadence and may itself synchronously
/// invoke the callback.
pub struct InStream<CB> {
    callbacks: CB,
    format: Format,
    sample_rate: i32,
    channel_count: usize,
    latency_nanos: u64,
    started: bool,
    paused: bool,
    consumed_frames: u64,
}

/// The consumed-frame counter after one period: a begun window adds its
/// granted frame count (topping out at the counter's maximum); an
/// un-begun window consumes nothing.
pub open spec fn consumed_frames_after(consumed: u64, r: InStreamReader) -> int {
    if r.spec_read_started() {
        if consumed + r.spec_frame_count() <= u64::MAX {
            consumed + r.spec_frame_count()
        } else {
            u64::MAX as int
        }
    } else {
        consumed as int
    }
}

/// One period boundary dispatched between the stream states `pre` and
/// `post`, through the callback object `cb` and the cursor `r` of one
/// admitted `CB::on_read` call whose outcomes are `cb_after` and
/// `r_after`: the cursor started fresh, with no window begun, the
/// period's advertised bounds of 0 and [`PERIOD_FRAMES`], and the
/// stream's own channel count, sample size, rate and latency; the
/// callback object was the stream's registered one and ends as the
/// stream's new one; and the consumed-frame counter accounts for exactly
/// the window the callback left begun — committed once iff begun, and
/// never otherwise.
pub open spec fn read_period_call<CB: InStreamCallbacks>(
    pre: InStream<CB>,
    post: InStream<CB>,
    cb: &mut CB,
    r: &mut InStreamReader,
    cb_after: CB,
    r_after: InStreamReader,
) -> bool {
    &&& mut_ref_current(r).wf()
    &&& !mut_ref_current(r).spec_read_started()
    &&& mut_ref_current(r).spec_frame_count_min() == 0
    &&& mut_ref_current(r).spec_frame_count_max() == PERIOD_FRAMES
    &&& mut_ref_current(r).spec_channel_count() == pre.spec_channel_count()
    &&& mut_ref_current(r).spec_bytes_per_sample() as int == spec_bytes_per_sample(
        pre.spec_format(),
    )
    &&& mut_ref_current(r).spec_sample_rate() == pre.spec_sample_rate()
    &&& mut_ref_current(r).spec_latency_nanos() == pre.spec_latency_nanos()
    &&& mut_ref_current(cb) == pre.spec_callbacks()
    &&& cb_after == post.spec_callbacks()
    &&& post.spec_consumed_frames() as int == consumed_frames_after(
        pre.spec_consumed_frames(),
        r_after,
    )
}

impl<CB: InStreamCallbacks> InStream<CB> {
    /// A well-formed stream: a valid sample format and a channel count
    /// one period's cursor can carry.
    pub closed spec fn wf(self) -> bool {
        &&& 1 <= spec_bytes_per_sample(self.format) <= 8
        &&& 1 <= self.channel_count <= MAX_CHANNELS
    }

    /// The negotiated sample format.
    pub closed spec fn spec_format(self) -> Format {
        self.format
    }

    /// The negotiated sample rate, in frames per second.
    pub closed spec fn spec_sample_rate(self) -> i32 {
        self.sample_rate
    }

    /// The stream's channel count.
    pub closed spec fn spec_channel_count(self) -> usize {
        self.channel_count
    }

    /// The negotiated software latency, in nanoseconds.
    pub closed spec fn spec_latency_nanos(self) -> u64 {
        self.latency_nanos
    }

    /// Whether the period cadence has been started.
    pub closed spec fn spec_started(self) -> bool {
        self.started
    }

    /// Whether the stream is paused.
    pub closed spec fn spec_paused(self) -> bool {
        self.paused
    }

    /// The number of frames the read callbacks have consumed from the
    /// engine's buffer (saturating).
    pub closed spec fn spec_consumed_frames(self) -> u64 {
        self.consumed_frames
    }

    /// The caller's registered callback set.
    pub closed spec fn spec_callbacks(self) -> CB {
        self.callbacks
    }

    /// The caller's registered callback set, for inspection.
    pub fn callbacks(&self) -> (r: &CB)
        ensures
            *r == self.spec_callbacks(),
    {
        &self.callbacks
    }

    /// Start the period cadence. On an unpaused stream the first period
    /// runs synchronously: the read callback is invoked before this
    /// returns. Starting an already started stream is refused with
    /// [`Error::Invalid`] and changes nothing.
    pub fn start(&mut self) -> (r: Result<()>)
        requires
            old(self).wf(),
        ensures
            final(self).wf(),
            old(self).spec_started() ==> r == Result::<()>::Err(Error::Invalid) && *final(self)
                == *old(self),
            !old(self).spec_started() ==> r == Result::<()>::Ok(()) && final(self).spec_started(),
            !old(self).spec_started() && !old(self).spec_paused() ==> (exists|
                cb: &mut CB,
                rd: &mut InStreamReader,
            |
                #[trigger] call_ensures(CB::on_read, (cb, rd), ()) && read_period_call(
                    *old(self),
                    *final(self),
                    cb,
                    rd,
                    mut_ref_future(cb),
                    mut_ref_future(rd),
                )),
            final(self).spec_format() == old(self).spec_format(),
            final(self).spec_sample_rate() == old(self).spec_sample_rate(),
            final(self).spec_channel_count() == old(self).spec_channel_count(),
            final(self).spec_latency_nanos() == old(self).spec_latency_nanos(),
            final(self).spec_paused() == old(self).spec_paused(),
            final(self).spec_consumed_frames() >= old(self).spec_consumed_frames(),
    {
        if self.started {
            return Err(Error::Invalid);
        }
        self.started = true;
        self.run_period()
    }

    /// Run one period boundary of the engine's realtime cadence: unless
    /// the stream is paused, build a fresh cursor bounded by this
    /// period's frame counts, invoke the read callback with it, and
    /// commit whatever window the callback began — exactly once, and only
    /// if a read was begun; [`read_period_call`] states all of this of
    /// the old and new stream state. Running a never-started stream is
    /// refused with [`Error::Invalid`].
    pub fn run_period(&mut self) -> (r: Result<()>)
        requires
            old(self).wf(),
        ensures
            final(self).wf(),
            old(self).spec_started() ==> r == Result::<()>::Ok(()),
            !old(self).spec_started() ==> r == Result::<()>::Err(Error::Invalid) && *final(self)
                == *old(self),
            old(self).spec_started() && !old(self).spec_paused() ==> (exists|
                cb: &mut CB,
                rd: &mut InStreamReader,
            |
                #[trigger] call_ensures(CB::on_read, (cb, rd), ()) && read_period_call(
                    *old(self),
                    *final(self),
                    cb,
                    rd,
                    mut_ref_future(cb),
                    mut_ref_future(rd),
                )),
            final(self).spec_format() == old(self).spec_format(),
            final(self).spec_sample_rate() == old(self).spec_sample_rate(),
            final(self).spec_channel_count() == old(self).spec_channel_count(),
            final(self).spec_latency_nanos() == old(self).spec_latency_nanos(),
            final(self).spec_started() == old(self).spec_started(),
            final(self).spec_paused() == old(self).spec_paused(),
            final(self).spec_consumed_frames() >= old(self).spec_consumed_frames(),
            old(self).spec_paused() ==> final(self).spec_consumed_frames() == old(self).spec_consumed_frames(),
    {
        if !self.started {
            return Err(Error::Invalid);
        }
        if self.paused {
            return Ok(());
        }
        let bps = self.format.bytes_per_sample();
        let mut reader = InStreamReader::new(
            0,
            PERIOD_FRAMES,
            self.channel_count,
            bps,
            self.sample_rate,
            self.latency_nanos,
        );
        self.callbacks.on_read(&mut reader);
        if reader.read_begun() {
            let granted = reader.frame_count();
            self.consumed_frames = saturating_add_u64(self.consumed_frames, granted as u64);
        }
        Ok(())
    }

    /// Pause or resume the stream. Pausing an already paused stream, or
    /// resuming an already running one, is a successful no-op: the second
    /// call returns `Ok` just as the first did.
    pub fn pause(&mut self, pause: bool) -> (r: Result<()>)
        requires
            old(self).wf(),
        ensures
            r == Result::<()>::Ok(()),
            final(self).wf(),
            final(self).spec_paused() == pause,
            final(self).spec_format() == old(self).spec_format(),
            final(self).spec_sample_rate() == old(self).spec_sample_rate(),
            final(self).spec_channel_count() == old(self).spec_channel_count(),
            final(self).spec_latency_nanos() == old(self).spec_latency_nanos(),
            final(self).spec_started() == old(self).spec_started(),
            final(self).spec_consumed_frames() == old(self).spec_consumed_frames(),
            final(self).spec_callbacks() == old(self).spec_callbacks(),
    {
        self.paused = pause;
        Ok(())
    }

    /// The negotiated sample format.
    pub fn format(&self) -> (r: Format)
        ensures
            r == self.spec_format(),
    {
        self.format
    }

    /// The negotiated sample rate, in frames per second.
    pub fn sample_rate(&self) -> (r: i32)
        ensures
            r == self.spec_sample_rate(),
    {
        self.sample_rate
    }

    /// The negotiated software latency, in nanoseconds.
    pub fn software_latency(&self) -> (r: u64)
        ensures
            r == self.spec_latency_nanos(),
    {
        self.latency_nanos
    }
}

impl Device {
    /// Open an input stream against this device.
    ///
    /// The requested sample rate, format, layout and software latency are
    /// hints: the engine substitutes the nearest supported sample rate
    /// and clamps the latency into the device's bounds, so callers must
    /// read the negotiated values back from the stream rather than assume
    /// the request was honored exactly. The callback set is installed at
    /// open time and invoked from the period cadence once the stream is
    /// started.
    ///
    /// Failures, by category: [`Error::Invalid`] when this is not an
    /// input device, the format is invalid, or the layout's channel count
    /// is zero or above the engine's limit; otherwise
    /// [`Error::IncompatibleDevice`] when the device supports neither the
    /// format nor the layout asked for. A failed open changes nothing and
    /// yields no stream.
    pub fn open_instream<CB: InStreamCallbacks>(
        &self,
        sample_rate: i32,
        format: Format,
        layout: &ChannelLayout,
        latency_nanos: u64,
        callbacks: CB,
    ) -> (r: Result<InStream<CB>>)
        requires
            self.wf(),
        ensures
            ({
                let cc = layout.channels@.len();
                let param_invalid = self.aim != DeviceAim::Input || format == Format::Invalid
                    || cc == 0 || cc > MAX_CHANNELS;
                let unsupported = !self.formats@.contains(format) || !contains_layout(
                    self.layouts@,
                    *layout,
                );
                match r {
                    Ok(s) => {
                        &&& !param_invalid
                        &&& !unsupported
                        &&& s.wf()
                        &&& s.spec_format() == format
                        &&& s.spec_channel_count() == cc
                        &&& self.spec_nearest_rate(sample_rate as int, s.spec_sample_rate() as int)
                        &&& s.spec_latency_nanos() == negotiated_latency_nanos(
                            *self,
                            latency_nanos,
                        )
                        &&& !s.spec_started()
                        &&& !s.spec_paused()
                        &&& s.spec_consumed_frames() == 0
                        &&& s.spec_callbacks() == callbacks
                    },
                    Err(e) => {
                        &&& (e == Error::Invalid <==> param_invalid)
                        &&& (e == Error::IncompatibleDevice <==> !param_invalid && unsupported)
                        &&& (e == Error::Invalid || e == Error::IncompatibleDevice)
                    },
                }
            }),
    {
        let cc = layout.channels.len();
        if !matches!(self.aim, DeviceAim::Input) || matches!(format, Format::Invalid) || cc == 0
            || cc > MAX_CHANNELS {
            return Err(Error::Invalid);
        }
        if !self.supports_format(format) || !self.supports_layout(layout) {
            return Err(Error::IncompatibleDevice);
        }
        let rate = self.nearest_sample_rate(sample_rate);
        let latency = negotiate_latency(self, latency_nanos);
        Ok(
            InStream {
                callbacks,
                format,
                sample_rate: rate,
                channel_count: cc,
                latency_nanos: latency,
                started: false,
                paused: false,
                consumed_frames: 0,
            },
        )
    }
}

} // verus!
