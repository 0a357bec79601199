use soundio::Backend;
use soundio::Context;
use soundio::ContextCallbacks;
use soundio::DeviceAim;
use soundio::Error;

#[test]
fn connect_default_backend() {
    let mut ctx = Context::new();
    match ctx.connect_backend(Backend::Dummy) {
        Ok(()) => println!("Connected to {}", ctx.current_backend().name()),
        Err(e) => println!("Couldn't connect: {}", e.description()),
    }
}

#[test]
fn available_backends() {
    let ctx = Context::new();
    println!("Available backends: {:?}", ctx.available_backends());
}

#[test]
fn available_backends_is_dummy_only() {
    let ctx = Context::new();
    assert_eq!(ctx.available_backends(), vec![Backend::Dummy]);
}

#[test]
fn connect_picks_dummy_backend() {
    let mut ctx = Context::new();
    assert_eq!(ctx.current_backend(), Backend::NoBackend);
    assert_eq!(ctx.connect(), Ok(()));
    assert_eq!(ctx.current_backend(), Backend::Dummy);
}

#[test]
fn connect_twice_is_invalid() {
    let mut ctx = Context::new();
    assert_eq!(ctx.connect(), Ok(()));
    assert_eq!(ctx.connect(), Err(Error::Invalid));
    assert_eq!(ctx.connect_backend(Backend::Dummy), Err(Error::Invalid));
}

#[test]
fn connect_unavailable_backend() {
    let mut ctx = Context::new();
    assert_eq!(ctx.connect_backend(Backend::Jack), Err(Error::BackendUnavailable));
    assert_eq!(ctx.connect_backend(Backend::NoBackend), Err(Error::Invalid));
    assert_eq!(ctx.connect_backend(Backend::Dummy), Ok(()));
}

#[test]
fn disconnect_allows_reconnect() {
    let mut ctx = Context::new();
    assert_eq!(ctx.connect(), Ok(()));
    ctx.disconnect();
    assert_eq!(ctx.current_backend(), Backend::NoBackend);
    assert_eq!(ctx.connect(), Ok(()));
}

#[test]
fn app_name_starts_empty_and_strips_colons() {
    let mut ctx = Context::new();
    assert_eq!(ctx.app_name(), "");
    ctx.set_app_name(":::My App:::");
    assert_eq!(ctx.app_name(), "My App");
    ctx.set_app_name("plain");
    assert_eq!(ctx.app_name(), "plain");
}

#[test]
fn enumeration_before_flush_fails_gracefully() {
    let mut ctx = Context::new();
    assert_eq!(ctx.connect(), Ok(()));
    assert!(ctx.get_output_device(0).is_err());
    assert_eq!(ctx.default_output_device_index(), None);
    assert_eq!(ctx.default_input_device_index(), None);
    assert_eq!(ctx.default_output_device().err(), Some(Error::NoSuchDevice));
}

#[test]
fn scenario_dummy_enumeration() {
    let mut ctx = Context::new();
    assert_eq!(ctx.connect_backend(Backend::Dummy), Ok(()));
    ctx.flush_events();
    let count = ctx.output_device_count();
    assert_eq!(count, 1);
    if count > 0 {
        let dev = ctx.get_output_device(0).unwrap();
        assert!(!dev.is_raw());
        assert_eq!(dev.name(), "Dummy Output Device");
        assert_eq!(dev.aim(), DeviceAim::Output);
    }
}

#[test]
fn enumerated_devices_are_complete() {
    let mut ctx = Context::new();
    assert_eq!(ctx.connect(), Ok(()));
    ctx.flush_events();
    let outputs = ctx.output_devices().unwrap();
    let inputs = ctx.input_devices().unwrap();
    for dev in outputs.iter().chain(inputs.iter()) {
        assert!(!dev.formats().is_empty());
        assert!(!dev.layouts().is_empty());
        assert!(!dev.sample_rates().is_empty());
    }
    assert_eq!(outputs[0].aim(), DeviceAim::Output);
    assert_eq!(inputs[0].aim(), DeviceAim::Input);
    assert_eq!(inputs[0].id(), "dummy-input");
}

#[test]
fn default_devices_after_flush() {
    let mut ctx = Context::new();
    assert_eq!(ctx.connect(), Ok(()));
    ctx.flush_events();
    assert_eq!(ctx.default_output_device_index(), Some(0));
    assert_eq!(ctx.default_input_device_index(), Some(0));
    let dev = ctx.default_output_device().unwrap();
    assert_eq!(dev.id(), "dummy-output");
    assert_eq!(ctx.input_device_count(), 1);
}

#[test]
fn wait_events_returns_and_populates() {
    let mut ctx = Context::new();
    assert_eq!(ctx.connect(), Ok(()));
    ctx.wait_events();
    assert_eq!(ctx.output_device_count(), 1);
    ctx.wakeup();
    ctx.force_device_scan();
    ctx.flush_events();
    assert_eq!(ctx.output_device_count(), 1);
}

struct ChangeCounter {
    changes: std::rc::Rc<std::cell::Cell<usize>>,
}

impl ContextCallbacks for ChangeCounter {
    fn on_backend_disconnect(&mut self, _err: Error) {
        panic!("the dummy backend never disconnects");
    }

    fn on_devices_change(&mut self) {
        self.changes.set(self.changes.get() + 1);
    }

    fn on_events_signal(&mut self) {}
}

#[test]
fn devices_change_callback_fires_on_first_flush() {
    let changes = std::rc::Rc::new(std::cell::Cell::new(0));
    let mut ctx = Context::new_with_callbacks(ChangeCounter { changes: changes.clone() });
    assert_eq!(ctx.connect(), Ok(()));
    ctx.flush_events();
    ctx.flush_events();
    ctx.flush_events();
    // The snapshot only changes once: when it is first populated.
    assert_eq!(changes.get(), 1);
    assert_eq!(ctx.output_device_count(), 1);
}
