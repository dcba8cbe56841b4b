use pike_enginecontrol::event::StateEvent;
use pike_enginecontrol::phase::{actuation_path, FlightPhase, PyroSequencer};
use pike_enginecontrol::pyro::{PyroChannelName, PyroState};
use pike_enginecontrol::state::{MovingState, StateTransition, TransitionError, INACTIVE};

fn all_states() -> Vec<PyroState> {
    let mut v = vec![
        PyroState::IDLE,
        PyroState::CHARGING,
        PyroState::DISCHARGING,
        PyroState::READY,
    ];
    for c in [
        PyroChannelName::Pyro1,
        PyroChannelName::Pyro2,
        PyroChannelName::Ignition,
        PyroChannelName::Any,
    ] {
        v.push(PyroState::FIRING(c));
    }
    v
}

fn expected_allowed(a: PyroState, b: PyroState) -> bool {
    match (a, b) {
        (PyroState::IDLE, PyroState::CHARGING) | (PyroState::IDLE, PyroState::DISCHARGING) => true,
        (PyroState::CHARGING, PyroState::DISCHARGING) | (PyroState::CHARGING, PyroState::READY) => true,
        (PyroState::DISCHARGING, PyroState::CHARGING) => true,
        (PyroState::READY, PyroState::FIRING(_)) | (PyroState::READY, PyroState::IDLE) => true,
        (PyroState::FIRING(_), PyroState::CHARGING) | (PyroState::FIRING(_), PyroState::DISCHARGING) => true,
        _ => false,
    }
}

#[test]
fn legality_table_matches_every_pair() {
    let states = all_states();
    let mut allowed = 0;
    for a in &states {
        for b in &states {
            assert_eq!(a.is_transition_allowed(*b), expected_allowed(*a, *b), "{:?} -> {:?}", a, b);
            if a.is_transition_allowed(*b) {
                allowed += 1;
            }
        }
    }
    // 2 + 2 + 1 + (4 firing targets + 1) + 4 * 2
    assert_eq!(allowed, 18);
}

#[test]
fn idle_to_ready_is_refused() {
    assert!(!PyroState::IDLE.is_transition_allowed(PyroState::READY));
    assert!(!PyroState::DISCHARGING.is_transition_allowed(PyroState::DISCHARGING));
    assert!(!PyroState::CHARGING.is_transition_allowed(PyroState::FIRING(PyroChannelName::Pyro1)));
}

#[test]
fn required_events_per_state() {
    let ready = PyroState::READY.get_required_events();
    assert_eq!(ready.as_slice(), &[StateEvent::Pyro(PyroState::CHARGING)]);
    let firing = PyroState::FIRING(PyroChannelName::Ignition).get_required_events();
    assert_eq!(firing.as_slice(), &[StateEvent::Pyro(PyroState::READY)]);
    assert!(PyroState::IDLE.get_required_events().is_empty());
    assert!(PyroState::CHARGING.get_required_events().is_empty());
    assert!(PyroState::DISCHARGING.get_required_events().is_empty());
}

#[test]
fn failed_next_keeps_cursor() {
    let mut t: StateTransition<PyroState, 5> = StateTransition::new();
    t.add_state(PyroState::DISCHARGING).unwrap();
    t.add_state(PyroState::READY).unwrap();
    t.start();
    assert!(!t.next());
    assert_eq!(t.current_index(), 0);
    assert!(!t.next());
    assert_eq!(t.current_index(), 0);
    assert_eq!(t.state(), Some(PyroState::DISCHARGING));
    assert!(!t.finished());
}

#[test]
fn finished_follows_cursor_and_length() {
    let mut t: StateTransition<PyroState, 5> = StateTransition::new();
    assert_eq!(t.current_index(), INACTIVE);
    assert!(t.finished());
    assert_eq!(t.state(), None);
    t.start();
    assert!(t.finished(), "an empty path is finished as soon as it starts");
    t.reset();
    t.add_state(PyroState::CHARGING).unwrap();
    assert!(t.finished(), "a path that was never started is finished");
    t.start();
    assert!(!t.finished());
    assert!(t.next());
    assert_eq!(t.current_index(), 1);
    assert!(t.finished());
    assert!(!t.next(), "a finished path does not move");
    assert_eq!(t.current_index(), 1);
}

#[test]
fn default_sequencer_is_inactive() {
    let t: StateTransition<PyroState, 3> = StateTransition::default();
    assert_eq!(t.current_index(), INACTIVE);
    assert_eq!(t.len(), 0);
    assert!(t.finished());
}

#[test]
fn add_state_beyond_capacity_fails() {
    let mut t: StateTransition<PyroState, 2> = StateTransition::new();
    assert_eq!(t.add_state(PyroState::CHARGING), Ok(()));
    assert_eq!(t.add_state(PyroState::READY), Ok(()));
    assert_eq!(t.add_state(PyroState::IDLE), Err(TransitionError::CapacityExceeded));
    assert_eq!(t.len(), 2);
}

#[test]
fn charge_ready_round_trip() {
    let mut t: PyroSequencer = StateTransition::new();
    t.add_state(PyroState::CHARGING).unwrap();
    t.add_state(PyroState::READY).unwrap();
    t.start();
    assert_eq!(t.state(), Some(PyroState::CHARGING));
    assert!(t.next());
    assert_eq!(t.state(), Some(PyroState::READY));
    assert!(t.next());
    assert!(t.finished());
    assert_eq!(t.state(), None);
}

#[test]
fn idle_to_fire_is_refused_by_sequencer() {
    let mut t: PyroSequencer = StateTransition::new();
    t.add_state(PyroState::IDLE).unwrap();
    t.add_state(PyroState::FIRING(PyroChannelName::Pyro1)).unwrap();
    t.start();
    assert!(!t.next());
    assert_eq!(t.current_index(), 0);
    assert_eq!(t.state(), Some(PyroState::IDLE));
}

#[test]
fn ready_then_fire_advances() {
    let mut t: PyroSequencer = StateTransition::new();
    t.add_state(PyroState::READY).unwrap();
    t.add_state(PyroState::FIRING(PyroChannelName::Pyro2)).unwrap();
    t.start();
    assert!(t.next());
    assert_eq!(t.state(), Some(PyroState::FIRING(PyroChannelName::Pyro2)));
}

#[test]
fn actuation_paths_per_phase() {
    assert_eq!(actuation_path(FlightPhase::READY), vec![PyroState::CHARGING, PyroState::READY]);
    assert_eq!(actuation_path(FlightPhase::IGNITION), vec![PyroState::IDLE]);
    assert_eq!(actuation_path(FlightPhase::PROPULSION), vec![PyroState::CHARGING, PyroState::READY]);
    assert!(actuation_path(FlightPhase::IDLE).is_empty());
    assert!(actuation_path(FlightPhase::BURNOUT).is_empty());
}

#[test]
fn phase_ids_round_trip() {
    let phases = [
        FlightPhase::IDLE,
        FlightPhase::READY,
        FlightPhase::IGNITION,
        FlightPhase::PROPULSION,
        FlightPhase::BURNOUT,
    ];
    for (i, p) in phases.iter().enumerate() {
        assert_eq!(p.id() as usize, i);
        assert_eq!(FlightPhase::from_id(i as u8), Some(*p));
    }
    assert_eq!(FlightPhase::from_id(5), None);
    assert_eq!(FlightPhase::from_id(0xFF), None);
}
