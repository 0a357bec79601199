//! The engine context: the process-wide handle to the audio subsystem. It
//! owns the backend connection lifecycle, the device enumeration snapshot,
//! and the event dispatch towards caller-registered callbacks.
//!
//! The engine compiles in one backend, [`Backend::Dummy`]: a software
//! backend whose enumeration snapshot holds one output and one input
//! device, each accepting every sample format. Connection, enumeration and
//! negotiation behave as the real engine's dummy backend does, without any
//! audio hardware behind them.

use vstd::prelude::*;

use crate::backend::Backend;
use crate::channels::layout_id_of_code;
use crate::device::Device;
use crate::device::device_like;
use crate::error::Error;
use crate::error::Result;
use crate::format::Format;
use crate::format::format_of_code;
use crate::layout::ChannelLayout;
use crate::layout::builtin_channels;
use crate::layout::builtin_name;
use crate::types::DeviceAim;
use crate::types::SampleRateRange;
use crate::types::SoftwareLatency;

verus! {

/// The callbacks a caller may register on a context. The engine invokes
/// them during [`Context::flush_events`] and [`Context::wait_events`],
/// never from any other call.
///
/// Implementations come from the caller; the library promises nothing
/// about what they do and keeps its own guarantees whatever they do.
pub trait ContextCallbacks {
    /// Called when the backend this context is connected to becomes
    /// unavailable. After that, enumeration and opening streams fail with
    /// [`Error::BackendDisconnected`]. The built-in dummy backend never
    /// disconnects, so a context of this engine never invokes this.
    fn on_backend_disconnect(&mut self, err: Error);

    /// Called when the device enumeration snapshot has changed since the
    /// last flush.
    fn on_devices_change(&mut self);

    /// Called when an event arrives that would wake
    /// [`Context::wait_events`].
    fn on_events_signal(&mut self);
}

/// The default callback set: it reacts to nothing.
pub struct NoCallbacks;

impl ContextCallbacks for NoCallbacks {
    fn on_backend_disconnect(&mut self, _err: Error) {
    }

    fn on_devices_change(&mut self) {
    }

    fn on_events_signal(&mut self) {
    }
}

/// The caller-registered callbacks of one context.
pub struct ContextUserData<CB> {
    /// The registered callback set, if any.
    pub callbacks: Option<CB>,
}

/// How the dummy backend describes one of its devices: the probe finds
/// every sample format, every built-in channel layout, and one continuous
/// range of sample rates. The descriptor is complete — format list, layout
/// list and rate list are non-empty — so enumeration after a flush always
/// hands out well-formed devices.
pub open spec fn dummy_device_descriptor(d: Device, aim: DeviceAim) -> bool {
    &&& d.aim == aim
    &&& !d.is_raw
    &&& d.id@ == (if aim == DeviceAim::Input {
        "dummy-input"@
    } else {
        "dummy-output"@
    })
    &&& d.name@ == (if aim == DeviceAim::Input {
        "Dummy Input Device"@
    } else {
        "Dummy Output Device"@
    })
    &&& d.formats@.len() == 18
    &&& (forall|k: int| 0 <= k < 18 ==> #[trigger] d.formats@[k] == format_of_code(k + 1))
    &&& d.layouts@.len() == 26
    &&& (forall|k: int|
        0 <= k < 26 ==> (#[trigger] d.layouts@[k]).channels@ == builtin_channels(
            layout_id_of_code(k),
        ) && d.layouts@[k].name@ == builtin_name(layout_id_of_code(k)))
    &&& d.sample_rates@ == seq![SampleRateRange { min: 8000, max: 5644800 }]
    &&& d.current_format == Format::Float32LE
    &&& d.current_layout.channels@ == builtin_channels(
        crate::channels::ChannelLayoutId::Stereo,
    )
    &&& d.current_sample_rate == 48000
    &&& d.software_latency == (SoftwareLatency {
        min: 10000000,
        max: 4000000000,
        current: 1000000000,
    })
    &&& d.wf()
}

/// Build the dummy backend's descriptor for one device aim.
fn make_dummy_device(aim: DeviceAim) -> (d: Device)
    ensures
        dummy_device_descriptor(d, aim),
{
    let mut formats: Vec<Format> = Vec::new();
    let mut code: i32 = 1;
    while code <= 18
        invariant
            1 <= code <= 19,
            formats@.len() == code - 1,
            forall|k: int| 0 <= k < code - 1 ==> #[trigger] formats@[k] == format_of_code(k + 1),
        decreases 19 - code,
    {
        formats.push(Format::from_native(code));
        code = code + 1;
    }
    let layouts = ChannelLayout::get_all_builtin();
    let sample_rates = vec![SampleRateRange { min: 8000, max: 5644800 }];
    let (id, name) = if matches!(aim, DeviceAim::Input) {
        ("dummy-input".to_owned(), "Dummy Input Device".to_owned())
    } else {
        ("dummy-output".to_owned(), "Dummy Output Device".to_owned())
    };
    let d = Device {
        id,
        name,
        aim,
        is_raw: false,
        formats,
        layouts,
        sample_rates,
        current_format: Format::Float32LE,
        current_layout: ChannelLayout::get_builtin(crate::channels::ChannelLayoutId::Stereo),
        current_sample_rate: 48000,
        software_latency: SoftwareLatency { min: 10000000, max: 4000000000, current: 1000000000 },
    };
    proof {
        assert(d.sample_rates@ =~= seq![SampleRateRange { min: 8000, max: 5644800 }]);
    }
    d
}

/// The process-wide handle to the audio engine.
///
/// A context is created unconnected; [`Context::connect`] or
/// [`Context::connect_backend`] binds it to a backend, and
/// [`Context::flush_events`] refreshes the device enumeration snapshot,
/// which must happen before any enumeration call. Devices handed out by
/// enumeration are owned values: they stay meaningful after the snapshot
/// is refreshed or the context is dropped.
pub struct Context<CB> {
    app_name: String,
    userdata: ContextUserData<CB>,
    backend: Backend,
    flushed: bool,
    input_devices: Vec<Device>,
    output_devices: Vec<Device>,
}

impl<CB> Context<CB> {
    /// Every device the enumeration snapshot holds is a dummy-backend
    /// descriptor of the matching aim, and a flushed snapshot holds
    /// exactly one device per aim.
    #[verifier::type_invariant]
    spec fn inv(self) -> bool {
        &&& (forall|i: int|
            0 <= i < self.output_devices@.len() ==> dummy_device_descriptor(
                #[trigger] self.output_devices@[i],
                DeviceAim::Output,
            ))
        &&& (forall|i: int|
            0 <= i < self.input_devices@.len() ==> dummy_device_descriptor(
                #[trigger] self.input_devices@[i],
                DeviceAim::Input,
            ))
        &&& (self.flushed ==> self.output_devices@.len() == 1 && self.input_devices@.len() == 1)
    }

    /// The backend this context is connected to; [`Backend::NoBackend`]
    /// when unconnected.
    pub closed spec fn spec_backend(self) -> Backend {
        self.backend
    }

    /// Whether this context is connected to a backend.
    pub open spec fn spec_connected(self) -> bool {
        self.spec_backend() != Backend::NoBackend
    }

    /// Whether [`Context::flush_events`] has populated the enumeration
    /// snapshot since the last connect.
    pub closed spec fn spec_flushed(self) -> bool {
        self.flushed
    }

    /// The app name, as most recently set (colons stripped).
    pub closed spec fn spec_app_name(self) -> Seq<char> {
        self.app_name@
    }

    /// The output half of the enumeration snapshot.
    pub closed spec fn spec_output_devices(self) -> Seq<Device> {
        self.output_devices@
    }

    /// The input half of the enumeration snapshot.
    pub closed spec fn spec_input_devices(self) -> Seq<Device> {
        self.input_devices@
    }
}

/// A character sequence with every colon removed.
pub open spec fn without_colons(s: Seq<char>) -> Seq<char> {
    s.filter(|c: char| c != ':')
}

impl Context<NoCallbacks> {
    /// Create a new engine context with no callbacks registered. The
    /// context starts unconnected, with an empty app name and an empty,
    /// unflushed enumeration snapshot.
    pub fn new() -> (ctx: Context<NoCallbacks>)
        ensures
            !ctx.spec_connected(),
            !ctx.spec_flushed(),
            ctx.spec_app_name() == Seq::<char>::empty(),
            ctx.spec_output_devices() == Seq::<Device>::empty(),
            ctx.spec_input_devices() == Seq::<Device>::empty(),
    {
        Context::new_with_callbacks(NoCallbacks)
    }
}

impl<CB: ContextCallbacks> Context<CB> {
    /// Create a new engine context with the given callback set registered.
    /// The context starts unconnected, with an empty app name and an
    /// empty, unflushed enumeration snapshot.
    pub fn new_with_callbacks(callbacks: CB) -> (ctx: Context<CB>)
        ensures
            !ctx.spec_connected(),
            !ctx.spec_flushed(),
            ctx.spec_app_name() == Seq::<char>::empty(),
            ctx.spec_output_devices() == Seq::<Device>::empty(),
            ctx.spec_input_devices() == Seq::<Device>::empty(),
    {
        let ctx = Context {
            app_name: String::new(),
            userdata: ContextUserData { callbacks: Some(callbacks) },
            backend: Backend::NoBackend,
            flushed: false,
            input_devices: Vec::new(),
            output_devices: Vec::new(),
        };
        proof {
            assert(ctx.spec_output_devices() =~= Seq::<Device>::empty());
            assert(ctx.spec_input_devices() =~= Seq::<Device>::empty());
        }
        ctx
    }

    /// Set the app name, which some backends show to the user. Colons are
    /// removed. Nothing else about the context changes.
    pub fn set_app_name(&mut self, name: &str)
        ensures
            final(self).spec_app_name() == without_colons(name@),
            final(self).spec_backend() == old(self).spec_backend(),
            final(self).spec_flushed() == old(self).spec_flushed(),
            final(self).spec_output_devices() == old(self).spec_output_devices(),
            final(self).spec_input_devices() == old(self).spec_input_devices(),
    {
        proof {
            use_type_invariant(&*self);
        }
        let stripped = strip_colons(name);
        self.app_name = stripped;
    }

    /// The app name previously set by [`Context::set_app_name`]; empty
    /// until then.
    pub fn app_name(&self) -> (r: String)
        ensures
            r@ == self.spec_app_name(),
    {
        self.app_name.clone()
    }

    /// Connect to the default backend, trying the available backends in
    /// priority order; on this engine that is the dummy backend. Fails
    /// with [`Error::Invalid`] when the context is already connected, in
    /// which case nothing changes.
    pub fn connect(&mut self) -> (r: Result<()>)
        ensures
            old(self).spec_connected() ==> r == Result::<()>::Err(Error::Invalid) && *final(self) == *old(self),
            !old(self).spec_connected() ==> r == Result::<()>::Ok(()) && final(self).spec_backend()
                == Backend::Dummy,
            final(self).spec_flushed() == old(self).spec_flushed(),
            final(self).spec_app_name() == old(self).spec_app_name(),
            final(self).spec_output_devices() == old(self).spec_output_devices(),
            final(self).spec_input_devices() == old(self).spec_input_devices(),
    {
        self.connect_backend(Backend::Dummy)
    }

    /// Connect to one specific backend. Fails with [`Error::Invalid`] when
    /// already connected or when asked for [`Backend::NoBackend`], and
    /// with [`Error::BackendUnavailable`] when the backend is not compiled
    /// into this engine; only the dummy backend is. On failure nothing
    /// changes.
    pub fn connect_backend(&mut self, backend: Backend) -> (r: Result<()>)
        ensures
            old(self).spec_connected() ==> r == Result::<()>::Err(Error::Invalid) && *final(self) == *old(self),
            !old(self).spec_connected() && backend == Backend::NoBackend
                ==> r == Result::<()>::Err(Error::Invalid) && *final(self) == *old(self),
            !old(self).spec_connected() && backend != Backend::NoBackend && backend != Backend::Dummy
                ==> r == Result::<()>::Err(Error::BackendUnavailable) && *final(self) == *old(self),
            !old(self).spec_connected() && backend == Backend::Dummy ==> r == Result::<()>::Ok(())
                && final(self).spec_backend() == Backend::Dummy,
            final(self).spec_flushed() == old(self).spec_flushed(),
            final(self).spec_app_name() == old(self).spec_app_name(),
            final(self).spec_output_devices() == old(self).spec_output_devices(),
            final(self).spec_input_devices() == old(self).spec_input_devices(),
    {
        proof {
            use_type_invariant(&*self);
        }
        if !matches!(self.backend, Backend::NoBackend) {
            return Err(Error::Invalid);
        }
        match backend {
            Backend::NoBackend => Err(Error::Invalid),
            Backend::Dummy => {
                self.backend = Backend::Dummy;
                Ok(())
            },
            _ => Err(Error::BackendUnavailable),
        }
    }

    /// Disconnect from the current backend; a no-op when unconnected. The
    /// enumeration snapshot is invalidated: it empties and must be
    /// re-populated by [`Context::flush_events`] after the next connect.
    pub fn disconnect(&mut self)
        ensures
            !final(self).spec_connected(),
            !final(self).spec_flushed(),
            final(self).spec_app_name() == old(self).spec_app_name(),
            final(self).spec_output_devices() == Seq::<Device>::empty(),
            final(self).spec_input_devices() == Seq::<Device>::empty(),
    {
        proof {
            use_type_invariant(&*self);
        }
        self.backend = Backend::NoBackend;
        self.flushed = false;
        self.input_devices = Vec::new();
        self.output_devices = Vec::new();
        proof {
            assert(self.spec_output_devices() =~= Seq::<Device>::empty());
            assert(self.spec_input_devices() =~= Seq::<Device>::empty());
        }
    }

    /// The backend this context is connected to, or
    /// [`Backend::NoBackend`] when unconnected.
    pub fn current_backend(&self) -> (r: Backend)
        ensures
            r == self.spec_backend(),
    {
        self.backend
    }

    /// The backends available on this engine, in priority order. This
    /// engine compiles in exactly the dummy backend.
    pub fn available_backends(&self) -> (r: Vec<Backend>)
        ensures
            r@ == seq![Backend::Dummy],
    {
        let backends = vec![Backend::Dummy];
        proof {
            assert(backends@ =~= seq![Backend::Dummy]);
        }
        backends
    }

    /// Atomically refresh the device enumeration snapshot. Must be called
    /// before any enumeration call; it is cheap enough to call at high
    /// frequency. When the snapshot changes, the registered
    /// devices-changed callback is invoked before this returns — this and
    /// [`Context::wait_events`] are the only calls that invoke it.
    ///
    /// While connected, the refreshed snapshot holds the dummy backend's
    /// one output and one input device; unconnected, nothing changes.
    pub fn flush_events(&mut self)
        ensures
            final(self).spec_backend() == old(self).spec_backend(),
            final(self).spec_app_name() == old(self).spec_app_name(),
            old(self).spec_connected() ==> final(self).spec_flushed()
                && final(self).spec_output_devices().len() == 1
                && dummy_device_descriptor(final(self).spec_output_devices()[0], DeviceAim::Output)
                && final(self).spec_input_devices().len() == 1
                && dummy_device_descriptor(final(self).spec_input_devices()[0], DeviceAim::Input),
            !old(self).spec_connected() ==> final(self).spec_flushed() == old(self).spec_flushed()
                && final(self).spec_output_devices() == old(self).spec_output_devices()
                && final(self).spec_input_devices() == old(self).spec_input_devices(),
    {
        proof {
            use_type_invariant(&*self);
        }
        if matches!(self.backend, Backend::NoBackend) {
            return;
        }
        let changed = !self.flushed;
        self.output_devices = vec![make_dummy_device(DeviceAim::Output)];
        self.input_devices = vec![make_dummy_device(DeviceAim::Input)];
        self.flushed = true;
        if changed {
            // The context's type invariant forbids a lasting borrow of a
            // field, so the callback set steps out of the context for the
            // duration of the call.
            let mut callbacks: Option<CB> = None;
            core::mem::swap(&mut callbacks, &mut self.userdata.callbacks);
            dispatch_devices_change(&mut callbacks);
            core::mem::swap(&mut callbacks, &mut self.userdata.callbacks);
        }
    }

    /// Refresh the snapshot as [`Context::flush_events`] does, then wait
    /// until another event arrives or [`Context::wakeup`] is called from
    /// another thread. Spurious wakeups are permitted — this engine's
    /// event queue is always drained by the flush, so the call returns
    /// at once, which is one such wakeup. Callers must re-check their
    /// condition in a loop rather than wait once.
    pub fn wait_events(&mut self)
        ensures
            final(self).spec_backend() == old(self).spec_backend(),
            final(self).spec_app_name() == old(self).spec_app_name(),
            old(self).spec_connected() ==> final(self).spec_flushed()
                && final(self).spec_output_devices().len() == 1
                && dummy_device_descriptor(final(self).spec_output_devices()[0], DeviceAim::Output)
                && final(self).spec_input_devices().len() == 1
                && dummy_device_descriptor(final(self).spec_input_devices()[0], DeviceAim::Input),
            !old(self).spec_connected() ==> final(self).spec_flushed() == old(self).spec_flushed()
                && final(self).spec_output_devices() == old(self).spec_output_devices()
                && final(self).spec_input_devices() == old(self).spec_input_devices(),
    {
        self.flush_events();
    }

    /// Wake any thread blocked in [`Context::wait_events`]. Safe to call
    /// from any thread. On this engine waits return at once, so there is
    /// never a blocked thread to wake and the call changes nothing.
    pub fn wakeup(&self) {
    }

    /// Request an out-of-band device rescan. May be called from any thread
    /// except a realtime read/write callback. The dummy backend's device
    /// set is fixed, so the rescan has nothing to discover; the refreshed
    /// snapshot still only appears through [`Context::flush_events`].
    pub fn force_device_scan(&self) {
    }

    /// The number of input devices in the enumeration snapshot. Calling
    /// this before [`Context::flush_events`] has populated the snapshot is
    /// a caller error.
    pub fn input_device_count(&self) -> (r: usize)
        requires
            self.spec_flushed(),
        ensures
            r == self.spec_input_devices().len(),
    {
        self.input_devices.len()
    }

    /// The number of output devices in the enumeration snapshot. Calling
    /// this before [`Context::flush_events`] has populated the snapshot is
    /// a caller error.
    pub fn output_device_count(&self) -> (r: usize)
        requires
            self.spec_flushed(),
        ensures
            r == self.spec_output_devices().len(),
    {
        self.output_devices.len()
    }

    /// One input device out of the enumeration snapshot, as an owned
    /// descriptor. Fails with [`Error::OpeningDevice`] when the snapshot
    /// was never populated or the index is out of range. A device handed
    /// out here is well-formed: its format, layout and rate lists are
    /// non-empty.
    pub fn get_input_device(&self, index: usize) -> (r: Result<Device>)
        ensures
            match r {
                Ok(d) => self.spec_flushed() && index < self.spec_input_devices().len()
                    && device_like(d, self.spec_input_devices()[index as int]) && d.wf() && d.aim
                    == DeviceAim::Input,
                Err(e) => e == Error::OpeningDevice && (!self.spec_flushed() || index
                    >= self.spec_input_devices().len()),
            },
    {
        proof {
            use_type_invariant(&*self);
        }
        if !self.flushed {
            return Err(Error::OpeningDevice);
        }
        if index >= self.input_devices.len() {
            return Err(Error::OpeningDevice);
        }
        Ok(self.input_devices[index].clone())
    }

    /// One output device out of the enumeration snapshot, as an owned
    /// descriptor. Fails with [`Error::OpeningDevice`] when the snapshot
    /// was never populated or the index is out of range. A device handed
    /// out here is well-formed: its format, layout and rate lists are
    /// non-empty.
    pub fn get_output_device(&self, index: usize) -> (r: Result<Device>)
        ensures
            match r {
                Ok(d) => self.spec_flushed() && index < self.spec_output_devices().len()
                    && device_like(d, self.spec_output_devices()[index as int]) && d.wf() && d.aim
                    == DeviceAim::Output,
                Err(e) => e == Error::OpeningDevice && (!self.spec_flushed() || index
                    >= self.spec_output_devices().len()),
            },
    {
        proof {
            use_type_invariant(&*self);
        }
        if !self.flushed {
            return Err(Error::OpeningDevice);
        }
        if index >= self.output_devices.len() {
            return Err(Error::OpeningDevice);
        }
        Ok(self.output_devices[index].clone())
    }

    /// The index of the default input device, or `None` when there are no
    /// input devices or the snapshot was never populated.
    pub fn default_input_device_index(&self) -> (r: Option<usize>)
        ensures
            self.spec_flushed() && self.spec_input_devices().len() > 0 ==> r == Some(0usize),
            !(self.spec_flushed() && self.spec_input_devices().len() > 0) ==> r is None,
    {
        if self.flushed && self.input_devices.len() > 0 {
            Some(0)
        } else {
            None
        }
    }

    /// The index of the default output device, or `None` when there are no
    /// output devices or the snapshot was never populated.
    pub fn default_output_device_index(&self) -> (r: Option<usize>)
        ensures
            self.spec_flushed() && self.spec_output_devices().len() > 0 ==> r == Some(0usize),
            !(self.spec_flushed() && self.spec_output_devices().len() > 0) ==> r is None,
    {
        if self.flushed && self.output_devices.len() > 0 {
            Some(0)
        } else {
            None
        }
    }

    /// All input devices of the snapshot, as owned descriptors. Calling
    /// this before [`Context::flush_events`] has populated the snapshot is
    /// a caller error.
    pub fn input_devices(&self) -> (r: Result<Vec<Device>>)
        requires
            self.spec_flushed(),
        ensures
            match r {
                Ok(v) => v@.len() == self.spec_input_devices().len() && forall|i: int|
                    0 <= i < v@.len() ==> device_like(
                        #[trigger] v@[i],
                        self.spec_input_devices()[i],
                    ) && v@[i].wf(),
                Err(_) => false,
            },
    {
        proof {
            use_type_invariant(&*self);
        }
        let count = self.input_device_count();
        let mut devices: Vec<Device> = Vec::new();
        let mut i: usize = 0;
        while i < count
            invariant
                self.spec_flushed(),
                self.inv(),
                count == self.spec_input_devices().len(),
                0 <= i <= count,
                devices@.len() == i,
                forall|k: int|
                    0 <= k < i ==> device_like(
                        #[trigger] devices@[k],
                        self.spec_input_devices()[k],
                    ) && devices@[k].wf(),
            decreases count - i,
        {
            match self.get_input_device(i) {
                Ok(d) => devices.push(d),
                Err(_) => {
                    proof {
                        assert(false);
                    }
                },
            }
            i += 1;
        }
        Ok(devices)
    }

    /// All output devices of the snapshot, as owned descriptors. Calling
    /// this before [`Context::flush_events`] has populated the snapshot is
    /// a caller error.
    pub fn output_devices(&self) -> (r: Result<Vec<Device>>)
        requires
            self.spec_flushed(),
        ensures
            match r {
                Ok(v) => v@.len() == self.spec_output_devices().len() && forall|i: int|
                    0 <= i < v@.len() ==> device_like(
                        #[trigger] v@[i],
                        self.spec_output_devices()[i],
                    ) && v@[i].wf(),
                Err(_) => false,
            },
    {
        proof {
            use_type_invariant(&*self);
        }
        let count = self.output_device_count();
        let mut devices: Vec<Device> = Vec::new();
        let mut i: usize = 0;
        while i < count
            invariant
                self.spec_flushed(),
                self.inv(),
                count == self.spec_output_devices().len(),
                0 <= i <= count,
                devices@.len() == i,
                forall|k: int|
                    0 <= k < i ==> device_like(
                        #[trigger] devices@[k],
                        self.spec_output_devices()[k],
                    ) && devices@[k].wf(),
            decreases count - i,
        {
            match self.get_output_device(i) {
                Ok(d) => devices.push(d),
                Err(_) => {
                    proof {
                        assert(false);
                    }
                },
            }
            i += 1;
        }
        Ok(devices)
    }

    /// The default input device, as an owned descriptor. Fails with
    /// [`Error::NoSuchDevice`] when there are no input devices or the
    /// snapshot was never populated.
    pub fn default_input_device(&self) -> (r: Result<Device>)
        ensures
            match r {
                Ok(d) => self.spec_flushed() && self.spec_input_devices().len() > 0 && device_like(
                    d,
                    self.spec_input_devices()[0],
                ) && d.wf() && d.aim == DeviceAim::Input,
                Err(e) => e == Error::NoSuchDevice && !(self.spec_flushed()
                    && self.spec_input_devices().len() > 0),
            },
    {
        let index = match self.default_input_device_index() {
            Some(x) => x,
            None => {
                return Err(Error::NoSuchDevice);
            },
        };
        match self.get_input_device(index) {
            Ok(d) => Ok(d),
            Err(_) => {
                proof {
                    assert(false);
                }
                Err(Error::NoSuchDevice)
            },
        }
    }

    /// The default output device, as an owned descriptor. Fails with
    /// [`Error::NoSuchDevice`] when there are no output devices or the
    /// snapshot was never populated.
    pub fn default_output_device(&self) -> (r: Result<Device>)
        ensures
            match r {
                Ok(d) => self.spec_flushed() && self.spec_output_devices().len() > 0 && device_like(
                    d,
                    self.spec_output_devices()[0],
                ) && d.wf() && d.aim == DeviceAim::Output,
                Err(e) => e == Error::NoSuchDevice && !(self.spec_flushed()
                    && self.spec_output_devices().len() > 0),
            },
    {
        let index = match self.default_output_device_index() {
            Some(x) => x,
            None => {
                return Err(Error::NoSuchDevice);
            },
        };
        match self.get_output_device(index) {
            Ok(d) => Ok(d),
            Err(_) => {
                proof {
                    assert(false);
                }
                Err(Error::NoSuchDevice)
            },
        }
    }
}

/// Invoke the registered devices-changed callback, if any.
fn dispatch_devices_change<CB: ContextCallbacks>(callbacks: &mut Option<CB>) {
    match callbacks {
        Some(cb) => cb.on_devices_change(),
        None => {},
    }
}

/// Copy `name` with every colon removed.
fn strip_colons(name: &str) -> (r: String)
    ensures
        r@ == without_colons(name@),
{
    let n = name.unicode_len();
    let mut result = String::new();
    let mut i: usize = 0;
    while i < n
        invariant
            n == name@.len(),
            0 <= i <= n,
            result@ == without_colons(name@.subrange(0, i as int)),
        decreases n - i,
    {
        let c = name.get_char(i);
        if c != ':' {
            let piece = name.substring_char(i, i + 1);
            result.append(piece);
        }
        proof {
            reveal(Seq::<_>::filter);
            let pred = |ch: char| ch != ':';
            let t = name@.subrange(0, i + 1);
            assert(t.drop_last() =~= name@.subrange(0, i as int));
            assert(t.last() == name@[i as int]);
            if pred(name@[i as int]) {
                assert(t.filter(pred) == t.drop_last().filter(pred).push(t.last()));
                assert(name@.subrange(0, i as int).filter(pred).push(name@[i as int]) =~= name@
                    .subrange(0, i as int).filter(pred) + name@.subrange(i as int, i + 1));
            } else {
                assert(t.filter(pred) == t.drop_last().filter(pred));
            }
        }
        i += 1;
    }
    proof {
        assert(name@.subrange(0, n as int) =~= name@);
    }
    result
}

} // verus!
