//! Tablet pads: typed construction, metadata access and event dispatch.

use wlroots_handles::errors::HandleErr;
use wlroots_handles::tablet_pad::{
    DeviceType, InputDevice, PadData, PadRegistry, TabletPad, TabletPadHandle,
};
use wlroots_handles::tablet_pad_handler::{
    dispatch_button, dispatch_destroy, dispatch_ring, dispatch_strip, ButtonEvent, ButtonState,
    PadEventSource, RingEvent, StripEvent, TabletPadHandler,
};

fn pad_device(id: u64) -> InputDevice {
    InputDevice { device_id: id, dev_type: DeviceType::TabletPad, vendor: 0x56A, product: 0x317 }
}

fn pad_data() -> PadData {
    PadData { button_count: 8, ring_count: 1, strip_count: 2 }
}

struct Recorder {
    buttons: Vec<(u64, u32, bool)>,
    strips: Vec<(u64, u32)>,
    rings: Vec<(u64, u32)>,
    destroyed: Vec<u64>,
}

impl Recorder {
    fn new() -> Self {
        Recorder { buttons: Vec::new(), strips: Vec::new(), rings: Vec::new(), destroyed: Vec::new() }
    }
}

impl TabletPadHandler for Recorder {
    fn on_button(&mut self, pad: TabletPadHandle, event: &ButtonEvent) {
        let pressed = matches!(event.state, ButtonState::Pressed);
        self.buttons.push((pad.ident.pad_id, event.button, pressed));
    }

    fn on_strip(&mut self, pad: TabletPadHandle, event: &StripEvent) {
        self.strips.push((pad.ident.pad_id, event.strip));
    }

    fn on_ring(&mut self, pad: TabletPadHandle, event: &RingEvent) {
        self.rings.push((pad.ident.pad_id, event.ring));
    }

    fn destroyed(&mut self, pad: TabletPadHandle) {
        self.destroyed.push(pad.ident.pad_id);
    }
}

#[test]
fn construction_filters_by_device_type() {
    let mut reg = PadRegistry::new();
    let keyboard = InputDevice {
        device_id: 1,
        dev_type: DeviceType::Keyboard,
        vendor: 0,
        product: 0,
    };
    assert!(TabletPad::new_from_input_device(&mut reg, keyboard, 0x10, pad_data()).is_none());
    let h = TabletPad::new_from_input_device(&mut reg, pad_device(2), 0x10, pad_data());
    assert!(h.is_some());
    // The same identity cannot be wrapped twice.
    assert!(TabletPad::new_from_input_device(&mut reg, pad_device(2), 0x10, pad_data()).is_none());
}

#[test]
fn pad_exposes_its_input_device() {
    let mut reg = PadRegistry::new();
    let dev = pad_device(2);
    let h = TabletPad::new_from_input_device(&mut reg, dev, 0x10, pad_data()).unwrap();
    let seen = match h.run(&mut reg, |p: TabletPad| {
        let d = p.input_device();
        (p, d)
    }) {
        Ok(d) => d,
        Err(_) => panic!("run must succeed on a live pad"),
    };
    assert_eq!(seen, dev);
}

#[test]
fn handle_metadata_fails_only_after_destruction() {
    let mut reg = PadRegistry::new();
    let dev = pad_device(2);
    let h = TabletPad::new_from_input_device(&mut reg, dev, 0x10, pad_data()).unwrap();
    assert_eq!(h.input_device(&reg), Ok(dev));
    // Metadata stays readable while the pad is merely checked out.
    let res = match h.upgrade(&mut reg) {
        Ok(res) => res,
        Err(_) => panic!("upgrade must succeed"),
    };
    assert_eq!(h.input_device(&reg), Ok(dev));
    reg.release(res.slot, res.data);
    // Once the pad is destroyed, metadata fails like everything else.
    assert!(reg.notify_destroyed(0x10).is_some());
    assert_eq!(h.input_device(&reg), Err(HandleErr::AlreadyDropped));
}

#[test]
fn invalid_pad_handle_fails_and_compares_equal_to_default() {
    let mut reg = PadRegistry::new();
    let h = TabletPadHandle::new();
    assert!(matches!(h.run(&mut reg, |p: TabletPad| (p, ())), Err(HandleErr::AlreadyDropped)));
    assert_eq!(h.input_device(&reg), Err(HandleErr::AlreadyDropped));
    assert_eq!(TabletPadHandle::new(), TabletPadHandle::default());
}

#[test]
fn events_reach_the_handler_for_known_identities() {
    let mut reg = PadRegistry::new();
    let _h = TabletPad::new_from_input_device(&mut reg, pad_device(2), 0x10, pad_data()).unwrap();
    let mut rec = Recorder::new();
    let button = ButtonEvent { time_msec: 1, button: 3, state: ButtonState::Pressed, mode: 0 };
    let strip = StripEvent { time_msec: 2, strip: 1, source: PadEventSource::Finger };
    let ring = RingEvent { time_msec: 3, ring: 0, source: PadEventSource::Unknown };
    assert!(dispatch_button(&reg, &mut rec, 0x10, &button));
    assert!(dispatch_strip(&reg, &mut rec, 0x10, &strip));
    assert!(dispatch_ring(&reg, &mut rec, 0x10, &ring));
    // Unknown identities are ignored and reported as such.
    assert!(!dispatch_button(&reg, &mut rec, 0x99, &button));
    assert_eq!(rec.buttons, vec![(0x10, 3, true)]);
    assert_eq!(rec.strips, vec![(0x10, 1)]);
    assert_eq!(rec.rings, vec![(0x10, 0)]);
}

#[test]
fn destroy_dispatch_calls_back_once_and_unregisters_once() {
    let mut reg = PadRegistry::new();
    let h = TabletPad::new_from_input_device(&mut reg, pad_device(2), 0x10, pad_data()).unwrap();
    let mut rec = Recorder::new();
    let first = dispatch_destroy(&mut reg, &mut rec, 0x10);
    assert_eq!(first, Some(pad_data()));
    assert_eq!(rec.destroyed, vec![0x10]);
    // The handle the callback received names the pad that just died.
    assert!(matches!(h.run(&mut reg, |p: TabletPad| (p, ())), Err(HandleErr::AlreadyDropped)));
    // The second notification finds nothing: no callback, no teardown.
    let second = dispatch_destroy(&mut reg, &mut rec, 0x10);
    assert_eq!(second, None);
    assert_eq!(rec.destroyed, vec![0x10]);
    assert!(reg.resolve(0x10).is_none());
}

#[test]
fn single_owner_for_pads() {
    let mut reg = PadRegistry::new();
    let h1 = TabletPad::new_from_input_device(&mut reg, pad_device(2), 0x10, pad_data()).unwrap();
    let h2 = h1.clone();
    let res = match h1.upgrade(&mut reg) {
        Ok(res) => res,
        Err(_) => panic!("first upgrade must succeed"),
    };
    assert!(matches!(h2.upgrade(&mut reg), Err(HandleErr::AlreadyBorrowed)));
    reg.release(res.slot, res.data);
    assert!(h2.upgrade(&mut reg).is_ok());
}
