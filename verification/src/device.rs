//! Device descriptors: read-only metadata about one audio endpoint, with
//! the capability queries that stream negotiation relies on.

use vstd::prelude::*;

use crate::format::Format;
use crate::layout::ChannelLayout;
use crate::layout::contains_layout;
use crate::layout::ordered_by_channel_count;
use crate::layout::sort_by_channel_count;
use crate::types::DeviceAim;
use crate::types::SampleRateRange;
use crate::types::SoftwareLatency;

verus! {

/// Read-only metadata about one audio endpoint, as the engine's enumeration
/// snapshot reports it. A device obtained from enumeration is an owned
/// value; it stays meaningful after the snapshot is refreshed.
///
/// The same physical endpoint appears once per aim (and, where the hardware
/// allows exclusive access, once more per raw mode), all under the same
/// `id` and distinguished by `aim` and `is_raw`.
#[derive(Debug)]
pub struct Device {
    /// A byte string that uniquely identifies the endpoint; not necessarily
    /// meaningful text.
    pub id: String,
    /// User-friendly UTF-8 text describing the endpoint.
    pub name: String,
    /// Whether this device records (input) or plays back (output).
    pub aim: DeviceAim,
    /// Whether this device is opened for exclusive hardware access, without
    /// a software mixer in between.
    pub is_raw: bool,
    /// The sample formats the device supports; never empty for a device
    /// whose probe succeeded.
    pub formats: Vec<Format>,
    /// The channel layouts the device supports; never empty for a device
    /// whose probe succeeded.
    pub layouts: Vec<ChannelLayout>,
    /// The sample rates the device supports, as inclusive ranges; never
    /// empty for a device whose probe succeeded.
    pub sample_rates: Vec<SampleRateRange>,
    /// The currently negotiated format; meaningful only for raw or already
    /// opened devices.
    pub current_format: Format,
    /// The currently negotiated layout.
    pub current_layout: ChannelLayout,
    /// The currently negotiated sample rate, in frames per second.
    pub current_sample_rate: i32,
    /// Software latency bounds, in nanoseconds.
    pub software_latency: SoftwareLatency,
}

/// Two layout lists that agree element by element on name and channels.
pub open spec fn layouts_alike(a: Seq<ChannelLayout>, b: Seq<ChannelLayout>) -> bool {
    a.len() == b.len() && forall|i: int|
        0 <= i < a.len() ==> (#[trigger] a[i]).name@ == b[i].name@ && a[i].channels@
            == b[i].channels@
}

/// Two device descriptors that describe the same endpoint: every field
/// agrees (strings and lists by contents).
pub open spec fn device_like(a: Device, b: Device) -> bool {
    &&& a.id@ == b.id@
    &&& a.name@ == b.name@
    &&& a.aim == b.aim
    &&& a.is_raw == b.is_raw
    &&& a.formats@ == b.formats@
    &&& layouts_alike(a.layouts@, b.layouts@)
    &&& a.sample_rates@ == b.sample_rates@
    &&& a.current_format == b.current_format
    &&& a.current_layout.name@ == b.current_layout.name@
    &&& a.current_layout.channels@ == b.current_layout.channels@
    &&& a.current_sample_rate == b.current_sample_rate
    &&& a.software_latency == b.software_latency
}

impl Clone for Device {
    /// Cloning yields a descriptor of the same endpoint, field for field.
    fn clone(&self) -> (r: Self)
        ensures
            device_like(r, *self),
    {
        let layouts = clone_layouts(&self.layouts);
        let formats = self.formats.clone();
        let sample_rates = self.sample_rates.clone();
        proof {
            assert(formats@ =~= self.formats@);
            assert(sample_rates@ =~= self.sample_rates@);
        }
        Device {
            id: self.id.clone(),
            name: self.name.clone(),
            aim: self.aim,
            is_raw: self.is_raw,
            formats,
            layouts,
            sample_rates,
            current_format: self.current_format,
            current_layout: self.current_layout.clone(),
            current_sample_rate: self.current_sample_rate,
            software_latency: self.software_latency,
        }
    }
}

/// Copy a layout list, keeping every name and channel list.
fn clone_layouts(layouts: &Vec<ChannelLayout>) -> (r: Vec<ChannelLayout>)
    ensures
        layouts_alike(r@, layouts@),
{
    let n = layouts.len();
    let mut out: Vec<ChannelLayout> = Vec::new();
    let mut i: usize = 0;
    while i < n
        invariant
            n == layouts@.len(),
            0 <= i <= n,
            out@.len() == i,
            forall|k: int|
                0 <= k < i ==> (#[trigger] out@[k]).name@ == layouts@[k].name@ && out@[k].channels@
                    == layouts@[k].channels@,
        decreases n - i,
    {
        out.push(layouts[i].clone());
        i += 1;
    }
    out
}

/// The rate that one supported range forces `rate` to: `rate` itself when
/// the range holds it, else the nearer bound.
pub open spec fn clamp_to_range(r: SampleRateRange, rate: int) -> int {
    if rate < r.min {
        r.min as int
    } else if rate > r.max {
        r.max as int
    } else {
        rate
    }
}

/// How far `rate` is from the nearest point of one supported range.
pub open spec fn range_distance(r: SampleRateRange, rate: int) -> int {
    if rate < r.min {
        r.min - rate
    } else if rate > r.max {
        rate - r.max
    } else {
        0
    }
}

impl Device {
    /// A device whose probe succeeded: its format, layout and sample-rate
    /// lists are non-empty and every rate range is well-formed.
    pub open spec fn wf(self) -> bool {
        &&& self.formats@.len() > 0
    &&& self.layouts@.len() > 0
    &&& self.sample_rates@.len() > 0
    &&& forall|i: int|
            0 <= i < self.sample_rates@.len() ==> (#[trigger] self.sample_rates@[i]).wf()
    }

    /// Whether this device supports the given sample rate.
    pub open spec fn spec_supports_sample_rate(self, rate: int) -> bool {
        exists|i: int|
            0 <= i < self.sample_rates@.len() && (#[trigger] self.sample_rates@[i]).spec_contains(
                rate,
            )
    }

    /// The byte string that uniquely identifies this endpoint.
    pub fn id(&self) -> (r: String)
        ensures
            r@ == self.id@,
    {
        self.id.clone()
    }

    /// User-friendly UTF-8 text describing this endpoint.
    pub fn name(&self) -> (r: String)
        ensures
            r@ == self.name@,
    {
        self.name.clone()
    }

    /// Whether this device records (input) or plays back (output).
    pub fn aim(&self) -> (r: DeviceAim)
        ensures
            r == self.aim,
    {
        self.aim
    }

    /// The channel layouts this device supports, as an owned copy.
    pub fn layouts(&self) -> (r: Vec<ChannelLayout>)
        ensures
            layouts_alike(r@, self.layouts@),
    {
        clone_layouts(&self.layouts)
    }

    /// The currently negotiated channel layout.
    pub fn current_layout(&self) -> (r: ChannelLayout)
        ensures
            r.name@ == self.current_layout.name@,
            r.channels@ == self.current_layout.channels@,
    {
        self.current_layout.clone()
    }

    /// The sample formats this device supports, as an owned copy.
    pub fn formats(&self) -> (r: Vec<Format>)
        ensures
            r@ == self.formats@,
    {
        let r = self.formats.clone();
        proof {
            assert(r@ =~= self.formats@);
        }
        r
    }

    /// The currently negotiated format; [`Format::Invalid`] when none has
    /// been negotiated yet.
    pub fn current_format(&self) -> (r: Format)
        ensures
            r == self.current_format,
    {
        self.current_format
    }

    /// The sample rates this device supports, as inclusive ranges, as an
    /// owned copy.
    pub fn sample_rates(&self) -> (r: Vec<SampleRateRange>)
        ensures
            r@ == self.sample_rates@,
    {
        let r = self.sample_rates.clone();
        proof {
            assert(r@ =~= self.sample_rates@);
        }
        r
    }

    /// The currently negotiated sample rate; 0 when unknown.
    pub fn current_sample_rate(&self) -> (r: i32)
        ensures
            r == self.current_sample_rate,
    {
        self.current_sample_rate
    }

    /// Software latency bounds of this device, in nanoseconds.
    pub fn software_latency(&self) -> (r: SoftwareLatency)
        ensures
            r == self.software_latency,
    {
        self.software_latency
    }

    /// Whether this device is opened for exclusive hardware access.
    pub fn is_raw(&self) -> (r: bool)
        ensures
            r == self.is_raw,
    {
        self.is_raw
    }

    /// Sort the probed layout list by channel count, descending. Only the
    /// order of the probed layouts changes; the device keeps exactly the
    /// layouts it had, and every other field is untouched.
    pub fn sort_channel_layouts(&mut self)
        ensures
            final(self).layouts@.len() == old(self).layouts@.len(),
            final(self).layouts@.to_multiset() == old(self).layouts@.to_multiset(),
            ordered_by_channel_count(final(self).layouts@, false),
            final(self).id@ == old(self).id@,
            final(self).name@ == old(self).name@,
            final(self).aim == old(self).aim,
            final(self).is_raw == old(self).is_raw,
            final(self).formats@ == old(self).formats@,
            final(self).sample_rates@ == old(self).sample_rates@,
            final(self).current_format == old(self).current_format,
            final(self).current_layout == old(self).current_layout,
            final(self).current_sample_rate == old(self).current_sample_rate,
            final(self).software_latency == old(self).software_latency,
    {
        sort_by_channel_count(&mut self.layouts, false);
    }

    /// Whether this device supports the given sample format.
    pub fn supports_format(&self, format: Format) -> (r: bool)
        ensures
            r == self.formats@.contains(format),
    {
        let n = self.formats.len();
        let mut i: usize = 0;
        while i < n
            invariant
                n == self.formats@.len(),
                0 <= i <= n,
                forall|j: int| 0 <= j < i ==> self.formats@[j] != format,
            decreases n - i,
        {
            if self.formats[i] == format {
                return true;
            }
            i += 1;
        }
        false
    }

    /// Whether this device supports the given channel layout (compared by
    /// channel list; names are ignored).
    pub fn supports_layout(&self, layout: &ChannelLayout) -> (r: bool)
        ensures
            r == contains_layout(self.layouts@, *layout),
    {
        ChannelLayout::contains_matching(&self.layouts, layout)
    }

    /// Whether this device supports the given sample rate.
    pub fn supports_sample_rate(&self, sample_rate: i32) -> (r: bool)
        ensures
            r == self.spec_supports_sample_rate(sample_rate as int),
    {
        let n = self.sample_rates.len();
        let mut i: usize = 0;
        while i < n
            invariant
                n == self.sample_rates@.len(),
                0 <= i <= n,
                forall|j: int|
                    0 <= j < i ==> !(#[trigger] self.sample_rates@[j]).spec_contains(
                        sample_rate as int,
                    ),
            decreases n - i,
        {
            if self.sample_rates[i].contains(sample_rate) {
                return true;
            }
            i += 1;
        }
        false
    }

    /// What the engine's rate negotiation yields: `got` is the clamp of
    /// the request to one of the supported ranges, no other range comes
    /// closer to the request, and a supported request negotiates to
    /// itself.
    pub open spec fn spec_nearest_rate(self, requested: int, got: int) -> bool {
        &&& exists|i: int|
            0 <= i < self.sample_rates@.len() && got == clamp_to_range(
                #[trigger] self.sample_rates@[i],
                requested,
            ) && forall|j: int|
                0 <= j < self.sample_rates@.len() ==> range_distance(
                    self.sample_rates@[i],
                    requested,
                ) <= range_distance(#[trigger] self.sample_rates@[j], requested)
        &&& (self.spec_supports_sample_rate(requested) ==> got == requested)
        &&& self.spec_supports_sample_rate(got)
    }

    /// The supported sample rate nearest to `sample_rate`: a rate inside
    /// one of the supported ranges, at the least possible distance from the
    /// request. When the request itself is supported, it is returned
    /// unchanged.
    pub fn nearest_sample_rate(&self, sample_rate: i32) -> (r: i32)
        requires
            self.sample_rates@.len() > 0,
            forall|i: int| 0 <= i < self.sample_rates@.len() ==> (#[trigger] self.sample_rates@[i]).wf(),
        ensures
            self.spec_nearest_rate(sample_rate as int, r as int),
    {
        let n = self.sample_rates.len();
        let mut best_rate: i32 = clamp_rate(&self.sample_rates[0], sample_rate);
        let mut best_delta: i64 = rate_distance(&self.sample_rates[0], sample_rate);
        let ghost mut best_idx: int = 0;
        let mut i: usize = 1;
        while i < n
            invariant
                n == self.sample_rates@.len(),
                1 <= i <= n,
                0 <= best_idx < i,
                best_rate as int == clamp_to_range(
                    self.sample_rates@[best_idx],
                    sample_rate as int,
                ),
                best_delta as int == range_distance(self.sample_rates@[best_idx], sample_rate as int),
                forall|j: int|
                    0 <= j < i ==> best_delta as int <= range_distance(
                        #[trigger] self.sample_rates@[j],
                        sample_rate as int,
                    ),
            decreases n - i,
        {
            let delta = rate_distance(&self.sample_rates[i], sample_rate);
            if delta < best_delta {
                best_rate = clamp_rate(&self.sample_rates[i], sample_rate);
                best_delta = delta;
                proof {
                    best_idx = i as int;
                }
            }
            i += 1;
        }
        proof {
            let k = best_idx;
            assert(0 <= k < self.sample_rates@.len() && best_rate as int == clamp_to_range(
                self.sample_rates@[k],
                sample_rate as int,
            ) && forall|j: int|
                0 <= j < self.sample_rates@.len() ==> range_distance(
                    self.sample_rates@[k],
                    sample_rate as int,
                ) <= range_distance(#[trigger] self.sample_rates@[j], sample_rate as int));
            if self.spec_supports_sample_rate(sample_rate as int) {
                let w = choose|w: int|
                    0 <= w < self.sample_rates@.len() && (#[trigger] self.sample_rates@[w]).spec_contains(
                        sample_rate as int,
                    );
                assert(range_distance(self.sample_rates@[w], sample_rate as int) == 0);
                assert(range_distance(self.sample_rates@[k], sample_rate as int) == 0);
                assert(clamp_to_range(self.sample_rates@[k], sample_rate as int)
                    == sample_rate as int);
            }
            assert(self.sample_rates@[k].spec_contains(best_rate as int));
        }
        best_rate
    }
}

/// The rate that one supported range forces the request to.
fn clamp_rate(r: &SampleRateRange, rate: i32) -> (c: i32)
    ensures
        c as int == clamp_to_range(*r, rate as int),
{
    if rate < r.min {
        r.min
    } else if rate > r.max {
        r.max
    } else {
        rate
    }
}

/// How far the request is from the nearest point of one supported range,
/// computed widely enough that no difference of two rates can overflow.
fn rate_distance(r: &SampleRateRange, rate: i32) -> (d: i64)
    ensures
        d as int == range_distance(*r, rate as int),
{
    if rate < r.min {
        (r.min as i64) - (rate as i64)
    } else if rate > r.max {
        (rate as i64) - (r.max as i64)
    } else {
        0
    }
}

} // verus!
