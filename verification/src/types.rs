//! Small value types shared by devices and streams.

use vstd::prelude::*;

verus! {

/// Whether a device captures audio (input) or plays it back (output).
#[derive(Debug, Copy, Clone, PartialEq, Eq, Structural)]
pub enum DeviceAim {
    /// Capture / recording.
    Input,
    /// Playback.
    Output,
}

/// The native engine code of a device aim.
pub open spec fn code_of_aim(aim: DeviceAim) -> int {
    match aim {
        DeviceAim::Input => 0,
        DeviceAim::Output => 1,
    }
}

impl DeviceAim {
    /// Decode a native engine aim code. The engine's ABI admits exactly the
    /// two codes, so any other value is a caller error.
    pub fn from_native(code: i32) -> (aim: DeviceAim)
        requires
            code == 0 || code == 1,
        ensures
            code_of_aim(aim) == code as int,
    {
        if code == 0 {
            DeviceAim::Input
        } else {
            DeviceAim::Output
        }
    }

    /// Encode this aim as a native engine code.
    pub fn to_native(self) -> (code: i32)
        ensures
            code as int == code_of_aim(self),
    {
        match self {
            DeviceAim::Input => 0,
            DeviceAim::Output => 1,
        }
    }
}

/// Devices report their supported sample rates as inclusive ranges. For a
/// single supported rate, `min` and `max` are equal.
#[derive(Debug, Copy, Clone, PartialEq, Eq, Structural)]
pub struct SampleRateRange {
    pub min: i32,
    pub max: i32,
}

impl SampleRateRange {
    /// A well-formed range is non-empty and holds only positive rates.
    pub open spec fn wf(self) -> bool {
        0 < self.min <= self.max
    }

    /// Whether this range contains the given rate.
    pub open spec fn spec_contains(self, rate: int) -> bool {
        self.min <= rate <= self.max
    }

    pub fn new(min: i32, max: i32) -> (r: SampleRateRange)
        ensures
            r.min == min,
            r.max == max,
    {
        SampleRateRange { min, max }
    }

    /// Whether this range contains the given rate.
    pub fn contains(&self, rate: i32) -> (b: bool)
        ensures
            b == self.spec_contains(rate as int),
    {
        self.min <= rate && rate <= self.max
    }
}

/// Software latency bounds of a device: the time between writing or reading
/// a frame and it becoming audible or captured, excluding hardware-only
/// latency. All figures are in nanoseconds; zero means unknown or
/// irrelevant for this device until a stream is opened.
#[derive(Debug, Copy, Clone, PartialEq, Eq, Structural)]
pub struct SoftwareLatency {
    /// Smallest latency the device can be opened with, in nanoseconds.
    pub min: u64,
    /// Largest latency the device can be opened with, in nanoseconds.
    pub max: u64,
    /// The currently negotiated latency, in nanoseconds.
    pub current: u64,
}

} // verus!
