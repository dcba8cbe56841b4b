use std::cell::Cell;
use std::rc::Rc;

use embedded_hal::digital::v2::OutputPin;
use pike_enginecontrol::pin::{Output, PinError};
use pike_enginecontrol::pyro::{PyroChannel, PyroChannelName, PyroController, PyroError, PyroState};

/// A pin that records the level driven on it and can be made to fail.
#[derive(Clone)]
struct MockPin {
    level: Rc<Cell<Option<bool>>>,
    broken: Rc<Cell<bool>>,
}

impl MockPin {
    fn new() -> Self {
        MockPin { level: Rc::new(Cell::new(None)), broken: Rc::new(Cell::new(false)) }
    }
}

impl OutputPin for MockPin {
    type Error = ();
    fn set_low(&mut self) -> Result<(), ()> {
        if self.broken.get() {
            return Err(());
        }
        self.level.set(Some(false));
        Ok(())
    }
    fn set_high(&mut self) -> Result<(), ()> {
        if self.broken.get() {
            return Err(());
        }
        self.level.set(Some(true));
        Ok(())
    }
}

struct Rig {
    controller: PyroController<MockPin, 3>,
    charge: MockPin,
    discharge: MockPin,
    pyro1: MockPin,
    ignition: MockPin,
    pyro2: MockPin,
}

fn rig() -> Rig {
    let (charge, discharge) = (MockPin::new(), MockPin::new());
    let (pyro1, ignition, pyro2) = (MockPin::new(), MockPin::new(), MockPin::new());
    let mut controller =
        PyroController::new(Output::new(charge.clone()), Output::new(discharge.clone()));
    for (name, pin) in [
        (PyroChannelName::Pyro1, &pyro1),
        (PyroChannelName::Ignition, &ignition),
        (PyroChannelName::Pyro2, &pyro2),
    ] {
        controller.add_channel(PyroChannel { name, pin: Output::new(pin.clone()) }).unwrap();
    }
    Rig { controller, charge, discharge, pyro1, ignition, pyro2 }
}

impl Rig {
    fn channels_off(&self) -> bool {
        [&self.pyro1, &self.ignition, &self.pyro2].iter().all(|p| p.level.get() == Some(false))
    }
}

#[test]
fn output_polarity() {
    let pin = MockPin::new();
    let mut plain: Output<MockPin, false> = Output::new(pin.clone());
    assert_eq!(plain.driven_level(), None);
    plain.enable().unwrap();
    assert_eq!(pin.level.get(), Some(true));
    assert_eq!(plain.driven_level(), Some(true));
    plain.disable().unwrap();
    assert_eq!(pin.level.get(), Some(false));

    let inv_pin = MockPin::new();
    let mut inverted: Output<MockPin, true> = Output::new(inv_pin.clone());
    inverted.enable().unwrap();
    assert_eq!(inv_pin.level.get(), Some(false));
    inverted.disable().unwrap();
    assert_eq!(inv_pin.level.get(), Some(true));
    assert_eq!(inverted.driven_level(), Some(true));
}

#[test]
fn output_failure_is_reported() {
    let pin = MockPin::new();
    let mut out: Output<MockPin, false> = Output::new(pin.clone());
    out.enable().unwrap();
    pin.broken.set(true);
    assert!(matches!(out.disable(), Err(PinError::OutputError)));
    assert_eq!(out.driven_level(), Some(true));
}

#[test]
fn add_channel_fills_to_capacity() {
    let mut c: PyroController<MockPin, 3> =
        PyroController::new(Output::new(MockPin::new()), Output::new(MockPin::new()));
    for name in [PyroChannelName::Pyro1, PyroChannelName::Pyro2, PyroChannelName::Ignition] {
        assert_eq!(c.add_channel(PyroChannel { name, pin: Output::new(MockPin::new()) }), Ok(()));
    }
    assert_eq!(c.channel_count(), 3);
    let extra = PyroChannel { name: PyroChannelName::Pyro1, pin: Output::new(MockPin::new()) };
    assert_eq!(c.add_channel(extra), Err(PyroError::ControllerIsFull));
    assert_eq!(c.channel_count(), 3);
}

#[test]
fn new_controller_is_idle_and_not_ready() {
    let mut r = rig();
    assert_eq!(r.controller.get_state(), PyroState::IDLE);
    assert!(!r.controller.is_ready());
    r.controller.set_ready(true);
    assert!(r.controller.is_ready());
}

#[test]
fn reconfiguration_turns_channels_off() {
    let mut r = rig();
    r.controller.fire(PyroChannelName::Ignition).unwrap();
    assert_eq!(r.ignition.level.get(), Some(true));
    r.controller.charge().unwrap();
    assert!(r.channels_off());
    assert_eq!(r.charge.level.get(), Some(true));
    assert_eq!(r.discharge.level.get(), Some(true), "inverted discharge is off when high");

    r.controller.fire(PyroChannelName::Pyro1).unwrap();
    r.controller.discharge().unwrap();
    assert!(r.channels_off());
    assert_eq!(r.charge.level.get(), Some(false));
    assert_eq!(r.discharge.level.get(), Some(false), "inverted discharge is on when low");

    r.controller.fire(PyroChannelName::Pyro2).unwrap();
    r.controller.continuous_state().unwrap();
    assert!(r.channels_off());
    assert_eq!(r.charge.level.get(), Some(true));
    assert_eq!(r.discharge.level.get(), Some(false));

    r.controller.fire(PyroChannelName::Pyro2).unwrap();
    r.controller.closed_state().unwrap();
    assert!(r.channels_off());
    assert_eq!(r.charge.level.get(), Some(false));
    assert_eq!(r.discharge.level.get(), Some(true));
}

#[test]
fn fire_touches_only_the_named_channel() {
    let mut r = rig();
    r.controller.closed_state().unwrap();
    r.controller.fire(PyroChannelName::Pyro2).unwrap();
    assert_eq!(r.pyro2.level.get(), Some(true));
    assert_eq!(r.pyro1.level.get(), Some(false));
    assert_eq!(r.ignition.level.get(), Some(false));
    assert_eq!(r.charge.level.get(), Some(false));
    assert_eq!(r.discharge.level.get(), Some(true));
}

#[test]
fn fire_unknown_channel_changes_nothing() {
    let mut r = rig();
    r.controller.closed_state().unwrap();
    assert_eq!(r.controller.fire(PyroChannelName::Any), Ok(()));
    assert!(r.channels_off());
}

#[test]
fn fire_failure_is_reported() {
    let mut r = rig();
    r.pyro1.broken.set(true);
    assert_eq!(r.controller.fire(PyroChannelName::Pyro1), Err(PyroError::PyroChannelError));
}

#[test]
fn failed_channel_keeps_supplies_untouched() {
    let mut r = rig();
    r.controller.closed_state().unwrap();
    r.ignition.broken.set(true);
    assert_eq!(r.controller.charge(), Err(PyroError::PyroChannelError));
    assert_eq!(r.charge.level.get(), Some(false), "charge stays off while a channel may be on");
    assert_eq!(r.discharge.level.get(), Some(true));
    assert_eq!(r.pyro1.level.get(), Some(false));
    assert_eq!(r.pyro2.level.get(), Some(false), "later channels are still turned off");
}

#[test]
fn change_state_maps_postures() {
    let mut r = rig();
    assert_eq!(r.controller.change_state(PyroState::CHARGING), Ok(true));
    assert_eq!(r.controller.get_state(), PyroState::CHARGING);
    assert_eq!(r.charge.level.get(), Some(true));
    assert_eq!(r.controller.change_state(PyroState::CHARGING), Ok(false));
    assert_eq!(r.controller.change_state(PyroState::READY), Ok(true));
    assert_eq!(r.charge.level.get(), Some(false));
    assert_eq!(r.discharge.level.get(), Some(true));
    assert_eq!(r.controller.change_state(PyroState::FIRING(PyroChannelName::Ignition)), Ok(true));
    assert_eq!(r.ignition.level.get(), Some(true));
    assert_eq!(r.controller.change_state(PyroState::IDLE), Ok(true));
    assert!(r.channels_off());
    assert_eq!(r.charge.level.get(), Some(true));
    assert_eq!(r.discharge.level.get(), Some(false));
    assert_eq!(r.controller.change_state(PyroState::DISCHARGING), Ok(true));
    assert_eq!(r.charge.level.get(), Some(false));
    assert_eq!(r.discharge.level.get(), Some(false));
}

#[test]
fn change_state_failure_keeps_posture() {
    let mut r = rig();
    r.charge.broken.set(true);
    assert_eq!(
        r.controller.change_state(PyroState::CHARGING),
        Err(PyroError::StateChangeError(PyroState::CHARGING))
    );
    assert_eq!(r.controller.get_state(), PyroState::IDLE);
}

#[test]
fn channel_enable_and_disable() {
    let pin = MockPin::new();
    let mut ch = PyroChannel { name: PyroChannelName::Pyro1, pin: Output::new(pin.clone()) };
    ch.enable().unwrap();
    assert_eq!(pin.level.get(), Some(true));
    ch.disable().unwrap();
    assert_eq!(pin.level.get(), Some(false));
    pin.broken.set(true);
    assert_eq!(ch.enable(), Err(PyroError::PyroChannelError));
    assert_eq!(ch.disable(), Err(PyroError::PyroChannelError));
}
