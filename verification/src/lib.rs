//! A safe, fully specified model of a cross-platform realtime audio I/O
//! engine: device enumeration, stream lifecycle, and the begin/commit
//! buffer-window protocol between the engine's period callback and
//! caller-supplied read/write logic.
//!
//! The engine behind this library is its built-in dummy backend: a software
//! device that accepts every format, so that connection, enumeration,
//! negotiation and the realtime buffer protocol can be exercised and
//! verified without audio hardware.
//!
//! Everything the library hands out is an owned value: devices outlive the
//! enumeration snapshot they came from, and streams carry their negotiated
//! configuration themselves, so no create-order or destroy-order
//! discipline is imposed on callers.

use vstd::prelude::*;

pub mod backend;
pub mod channels;
pub mod context;
pub mod device;
pub mod error;
pub mod layout;
pub mod format;
pub mod instream;
pub mod outstream;
pub mod types;

pub use crate::backend::Backend;
pub use crate::channels::ChannelId;
pub use crate::channels::ChannelLayoutId;
pub use crate::context::Context;
pub use crate::context::ContextCallbacks;
pub use crate::context::ContextUserData;
pub use crate::context::NoCallbacks;
pub use crate::device::Device;
pub use crate::error::Error;
pub use crate::error::Result;
pub use crate::format::Format;
pub use crate::instream::InStream;
pub use crate::instream::InStreamCallbacks;
pub use crate::instream::InStreamReader;
pub use crate::outstream::OutStream;
pub use crate::outstream::OutStreamCallbacks;
pub use crate::outstream::OutStreamWriter;
pub use crate::layout::ChannelLayout;
pub use crate::types::DeviceAim;
pub use crate::types::SampleRateRange;
pub use crate::types::SoftwareLatency;

verus! {

/// The engine revision this library implements, as text.
pub fn version_string() -> (s: String)
    ensures
        s@ == "2.0.0"@,
{
    "2.0.0".to_owned()
}

/// The engine revision this library implements, as (major, minor, patch).
pub fn version() -> (v: (i32, i32, i32))
    ensures
        v.0 == 2 && v.1 == 0 && v.2 == 0,
{
    (2, 0, 0)
}

/// Whether this engine supports the given backend. Exactly the dummy
/// backend is compiled in.
pub fn have_backend(backend: Backend) -> (r: bool)
    ensures
        r == (backend == Backend::Dummy),
{
    matches!(backend, Backend::Dummy)
}

} // verus!
