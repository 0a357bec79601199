//! Backends: the OS audio subsystems the engine can connect to.

use vstd::prelude::*;

verus! {

/// One audio subsystem the engine knows how to drive. This library's engine
/// compiles in only [`Backend::Dummy`], a software backend that needs no
/// audio hardware; the other names exist so that callers can ask for them
/// and be told they are unavailable, exactly as on a host without them.
#[derive(Debug, Copy, Clone, PartialEq, Eq, Structural)]
pub enum Backend {
    /// Not connected to any backend.
    NoBackend,
    Jack,
    PulseAudio,
    Alsa,
    CoreAudio,
    Wasapi,
    /// The engine's built-in software backend.
    Dummy,
}

/// The backend denoted by a native engine code; out-of-table codes denote
/// [`Backend::NoBackend`].
pub open spec fn backend_of_code(code: int) -> Backend {
    if code == 1 {
        Backend::Jack
    } else if code == 2 {
        Backend::PulseAudio
    } else if code == 3 {
        Backend::Alsa
    } else if code == 4 {
        Backend::CoreAudio
    } else if code == 5 {
        Backend::Wasapi
    } else if code == 6 {
        Backend::Dummy
    } else {
        Backend::NoBackend
    }
}

/// The native engine code of a backend.
pub open spec fn code_of_backend(backend: Backend) -> int {
    match backend {
        Backend::NoBackend => 0,
        Backend::Jack => 1,
        Backend::PulseAudio => 2,
        Backend::Alsa => 3,
        Backend::CoreAudio => 4,
        Backend::Wasapi => 5,
        Backend::Dummy => 6,
    }
}

impl Backend {
    /// Decode a native engine backend code; out-of-range codes decode to
    /// [`Backend::NoBackend`].
    pub fn from_native(code: i32) -> (b: Backend)
        ensures
            b == backend_of_code(code as int),
    {
        match code {
            1 => Backend::Jack,
            2 => Backend::PulseAudio,
            3 => Backend::Alsa,
            4 => Backend::CoreAudio,
            5 => Backend::Wasapi,
            6 => Backend::Dummy,
            _ => Backend::NoBackend,
        }
    }

    /// Encode this backend as a native engine code.
    pub fn to_native(self) -> (code: i32)
        ensures
            code as int == code_of_backend(self),
    {
        match self {
            Backend::NoBackend => 0,
            Backend::Jack => 1,
            Backend::PulseAudio => 2,
            Backend::Alsa => 3,
            Backend::CoreAudio => 4,
            Backend::Wasapi => 5,
            Backend::Dummy => 6,
        }
    }

    /// The engine's display name for this backend.
    pub fn name(&self) -> String {
        match self {
            Backend::NoBackend => "(none)".to_owned(),
            Backend::Jack => "JACK".to_owned(),
            Backend::PulseAudio => "PulseAudio".to_owned(),
            Backend::Alsa => "ALSA".to_owned(),
            Backend::CoreAudio => "CoreAudio".to_owned(),
            Backend::Wasapi => "WASAPI".to_owned(),
            Backend::Dummy => "Dummy".to_owned(),
        }
    }
}

/// Decoding the native code of any backend yields that backend again.
pub proof fn lemma_backend_code_round_trip(b: Backend)
    ensures
        backend_of_code(code_of_backend(b)) == b,
{
}

} // verus!
