//! The error model: a closed set of engine failure categories, surfaced
//! uniformly by every fallible operation of the library.
//!
//! Each variant corresponds to one native error code of the audio engine's
//! C ABI; codes the library does not know map to [`Error::Unknown`] rather
//! than panicking, so new engine revisions stay safe to talk to.

use vstd::prelude::*;

verus! {

/// One failure category reported by the audio engine.
#[derive(Debug, Copy, Clone, PartialEq, Eq, Structural)]
pub enum Error {
    /// The engine ran out of memory.
    NoMem,
    /// The backend is not running or could not be initialized.
    InitAudioBackend,
    /// A system resource (file descriptors, shared memory, ...) is exhausted.
    SystemResources,
    /// The device could not be opened, or an enumeration index was invalid.
    OpeningDevice,
    /// No device with the requested identity exists.
    NoSuchDevice,
    /// The caller broke the API contract (for example connecting twice).
    Invalid,
    /// The requested backend was not compiled into the engine.
    BackendUnavailable,
    /// An unrecoverable streaming failure; the stream must be rebuilt.
    Streaming,
    /// The stream parameters are not compatible with the chosen device.
    IncompatibleDevice,
    /// The sound server reported that no such client exists.
    NoSuchClient,
    /// The stream parameters are not compatible with the backend.
    IncompatibleBackend,
    /// The backend disconnected while the operation was in flight.
    BackendDisconnected,
    /// The operation was interrupted; it may be retried.
    Interrupted,
    /// The output buffer ran dry (or the input buffer overran).
    Underflow,
    /// A string could not be encoded for the backend.
    EncodingString,
    /// A native error code this library does not know.
    Unknown,
}

/// The error denoted by a native engine code. Codes outside the engine's
/// table (including the success code zero) denote [`Error::Unknown`].
pub open spec fn error_of_code(code: int) -> Error {
    if code == 1 {
        Error::NoMem
    } else if code == 2 {
        Error::InitAudioBackend
    } else if code == 3 {
        Error::SystemResources
    } else if code == 4 {
        Error::OpeningDevice
    } else if code == 5 {
        Error::NoSuchDevice
    } else if code == 6 {
        Error::Invalid
    } else if code == 7 {
        Error::BackendUnavailable
    } else if code == 8 {
        Error::Streaming
    } else if code == 9 {
        Error::IncompatibleDevice
    } else if code == 10 {
        Error::NoSuchClient
    } else if code == 11 {
        Error::IncompatibleBackend
    } else if code == 12 {
        Error::BackendDisconnected
    } else if code == 13 {
        Error::Interrupted
    } else if code == 14 {
        Error::Underflow
    } else if code == 15 {
        Error::EncodingString
    } else {
        Error::Unknown
    }
}

/// The native engine code of an error. [`Error::Unknown`] stands for every
/// out-of-table code and is given the sentinel `-1`, which is itself outside
/// the table.
pub open spec fn code_of_error(e: Error) -> int {
    match e {
        Error::NoMem => 1,
        Error::InitAudioBackend => 2,
        Error::SystemResources => 3,
        Error::OpeningDevice => 4,
        Error::NoSuchDevice => 5,
        Error::Invalid => 6,
        Error::BackendUnavailable => 7,
        Error::Streaming => 8,
        Error::IncompatibleDevice => 9,
        Error::NoSuchClient => 10,
        Error::IncompatibleBackend => 11,
        Error::BackendDisconnected => 12,
        Error::Interrupted => 13,
        Error::Underflow => 14,
        Error::EncodingString => 15,
        Error::Unknown => -1,
    }
}

impl Error {
    /// Decode a native engine error code, mapping out-of-range codes to
    /// [`Error::Unknown`] instead of failing.
    pub fn from_native(code: i32) -> (e: Error)
        ensures
            e == error_of_code(code as int),
    {
        match code {
            1 => Error::NoMem,
            2 => Error::InitAudioBackend,
            3 => Error::SystemResources,
            4 => Error::OpeningDevice,
            5 => Error::NoSuchDevice,
            6 => Error::Invalid,
            7 => Error::BackendUnavailable,
            8 => Error::Streaming,
            9 => Error::IncompatibleDevice,
            10 => Error::NoSuchClient,
            11 => Error::IncompatibleBackend,
            12 => Error::BackendDisconnected,
            13 => Error::Interrupted,
            14 => Error::Underflow,
            15 => Error::EncodingString,
            _ => Error::Unknown,
        }
    }

    /// Encode this error as a native engine code.
    pub fn to_native(self) -> (code: i32)
        ensures
            code as int == code_of_error(self),
    {
        match self {
            Error::NoMem => 1,
            Error::InitAudioBackend => 2,
            Error::SystemResources => 3,
            Error::OpeningDevice => 4,
            Error::NoSuchDevice => 5,
            Error::Invalid => 6,
            Error::BackendUnavailable => 7,
            Error::Streaming => 8,
            Error::IncompatibleDevice => 9,
            Error::NoSuchClient => 10,
            Error::IncompatibleBackend => 11,
            Error::BackendDisconnected => 12,
            Error::Interrupted => 13,
            Error::Underflow => 14,
            Error::EncodingString => 15,
            Error::Unknown => -1,
        }
    }

    /// The engine's textual description of this error.
    pub fn description(&self) -> String {
        match self {
            Error::NoMem => "out of memory".to_owned(),
            Error::InitAudioBackend => "unable to initialize backend".to_owned(),
            Error::SystemResources => "system resource not available".to_owned(),
            Error::OpeningDevice => "unable to open device".to_owned(),
            Error::NoSuchDevice => "no such device".to_owned(),
            Error::Invalid => "invalid value".to_owned(),
            Error::BackendUnavailable => "backend unavailable".to_owned(),
            Error::Streaming => "unrecoverable streaming failure".to_owned(),
            Error::IncompatibleDevice => "incompatible device".to_owned(),
            Error::NoSuchClient => "no such client".to_owned(),
            Error::IncompatibleBackend => "incompatible backend".to_owned(),
            Error::BackendDisconnected => "backend disconnected".to_owned(),
            Error::Interrupted => "interrupted; try again".to_owned(),
            Error::Underflow => "buffer underflow".to_owned(),
            Error::EncodingString => "failed to encode string".to_owned(),
            Error::Unknown => "(unknown error)".to_owned(),
        }
    }
}

/// Converting any error to its native code and decoding that code again
/// yields the same error. In particular the mapping is injective on the
/// named variants, and the catch-all [`Error::Unknown`] is stable under
/// re-mapping to itself.
pub proof fn lemma_error_code_round_trip(e: Error)
    ensures
        error_of_code(code_of_error(e)) == e,
{
}

/// Every native code outside the engine's table decodes to
/// [`Error::Unknown`], never to a named variant and never to a panic.
pub proof fn lemma_out_of_table_code_is_unknown(code: int)
    requires
        !(1 <= code <= 15),
    ensures
        error_of_code(code) == Error::Unknown,
{
}

/// The result of a fallible engine operation.
pub type Result<T> = core::result::Result<T, Error>;

} // verus!
