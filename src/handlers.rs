//! The two orchestration handlers. The phase handler turns a requested
//! flight-phase change into an actuation path, gates each further step on an
//! observed confirmation, and commits the phase once the path is run through.
//! The actuation handler applies one step of the path per invocation.
use crate::event::{event_slice, listed, Event, EventBus, EventList, StateEvent, BUS_CAPACITY};
use crate::phase::{
    actuation_path, actuation_path_spec, current_phase, lemma_paths_fit, phase_id_spec, registered,
    registry_change_state, vetoes,
    FlightPhase, PhaseRegistry, PyroSequencer, PATH_CAPACITY,
};
use crate::pyro::{pyro_required, unheld, PyroController, PyroError, PyroState};
use crate::state::{MovingState, INACTIVE};
use embedded_hal::digital::v2::OutputPin;
use vstd::prelude::*;

verus! {

/// Whether observing `fired` lets the sequencer enter `state`: the state
/// awaits nothing, or awaits exactly that event among others.
pub open spec fn unblocks(state: PyroState, fired: StateEvent) -> bool {
    pyro_required(state).len() == 0 || pyro_required(state).contains(fired)
}

/// Whether `fired` is one of `required`, or `required` is empty.
pub fn satisfies(required: &EventList, fired: StateEvent) -> (r: bool)
    ensures
        r == (listed(*required).len() == 0 || listed(*required).contains(fired)),
{
    let events = event_slice(required);
    if events.len() == 0 {
        return true;
    }
    let mut i: usize = 0;
    while i < events.len()
        invariant
            events@ == listed(*required),
            i <= events@.len(),
            forall|j: int| 0 <= j < i ==> events@[j] != fired,
        decreases events@.len() - i,
    {
        if events[i] == fired {
            return true;
        }
        i = i + 1;
    }
    false
}

/// One step of an actuation path.
#[derive(Debug, Clone, Copy)]
pub struct Step {
    /// The posture that was applied.
    pub state: PyroState,
    /// What the controller reported for it.
    pub result: Result<bool, PyroError>,
}

/// One invocation of the actuation handler.
#[derive(Debug, Clone, Copy)]
pub struct Actuation {
    /// The posture that was applied.
    pub state: PyroState,
    /// What the controller reported for it.
    pub result: Result<bool, PyroError>,
    /// Whether the bus took the progress event.
    pub published: bool,
}

/// The sequencer after one actuation step from `old`: the cursor moves on when
/// the legality table lets it, and a path that is run through is cleared.
pub open spec fn stepped(new: PyroSequencer, old: PyroSequencer) -> bool {
    &&& new.wf()
    &&& if !old.can_advance() {
        new.cursor() == old.cursor() && new.path() == old.path()
    } else if old.cursor() + 1 >= old.path().len() {
        new.cursor() == INACTIVE && new.path() == Seq::<PyroState>::empty()
    } else {
        new.cursor() == old.cursor() + 1 && new.path() == old.path()
    }
}

/// What one applied step leaves behind: the controller went through posture
/// `state` (recorded when it succeeded), and the sequencer moved on.
pub open spec fn step_done<IO, const N: usize>(
    controller: PyroController<IO, N>,
    old_controller: PyroController<IO, N>,
    transition: PyroSequencer,
    old_transition: PyroSequencer,
    state: PyroState,
    result: Result<bool, PyroError>,
) -> bool {
    &&& old_transition.current() == Some(state)
    &&& controller.applied(&old_controller, state, result is Ok)
    &&& (result is Ok ==> controller.posture() == state)
    &&& (result is Err ==> controller.posture() == old_controller.posture())
    &&& (state matches PyroState::FIRING(n) && unheld(old_controller.channels(), n) ==> result is Ok)
    &&& stepped(transition, old_transition)
}

/// Applies the posture under the sequencer's cursor to the controller, moves
/// the sequencer on, and clears it once it is run through, whatever the
/// controller reported. Does nothing when the sequencer is finished.
pub fn actuate<IO: OutputPin, const N: usize>(
    controller: &mut PyroController<IO, N>,
    transition: &mut PyroSequencer,
) -> (r: Option<Step>)
    requires
        old(controller).wf(),
        old(transition).wf(),
    ensures
        final(controller).wf(),
        final(transition).wf(),
        r is None <==> old(transition).is_finished(),
        r is None ==> *final(controller) == *old(controller) && *final(transition) == *old(
            transition,
        ),
        r matches Some(s) ==> step_done(
            *final(controller),
            *old(controller),
            *final(transition),
            *old(transition),
            s.state,
            s.result,
        ),
{
    let state = match transition.state() {
        Some(s) => s,
        None => return None,
    };
    let result = controller.change_state(state);
    transition.next();
    if transition.finished() {
        transition.reset();
    }
    Some(Step { state, result })
}

/// Reports on the bus that posture `state` was applied; a full bus drops it.
pub fn publish_progress(bus: &mut EventBus, state: PyroState) -> (published: bool)
    requires
        old(bus).wf(),
    ensures
        final(bus).wf(),
        published == (old(bus).pending().len() < BUS_CAPACITY),
        published ==> final(bus).pending() == old(bus).pending().push(
            Event::StateInfo(StateEvent::Pyro(state)),
        ),
        !published ==> final(bus).pending() == old(bus).pending(),
{
    bus.enqueue(Event::StateInfo(StateEvent::Pyro(state)))
}

/// The actuation handler: one step of the path, then its progress report on
/// the bus, published whatever the controller reported. Does nothing when the
/// sequencer is finished.
pub fn pyro_handler<IO: OutputPin, const N: usize>(
    controller: &mut PyroController<IO, N>,
    transition: &mut PyroSequencer,
    bus: &mut EventBus,
) -> (r: Option<Actuation>)
    requires
        old(controller).wf(),
        old(transition).wf(),
        old(bus).wf(),
    ensures
        final(controller).wf(),
        final(transition).wf(),
        final(bus).wf(),
        r is None <==> old(transition).is_finished(),
        r is None ==> *final(controller) == *old(controller) && *final(transition) == *old(
            transition,
        ) && *final(bus) == *old(bus),
        r matches Some(a) ==> {
            &&& step_done(
                *final(controller),
                *old(controller),
                *final(transition),
                *old(transition),
                a.state,
                a.result,
            )
            &&& a.published == (old(bus).pending().len() < BUS_CAPACITY)
            &&& (a.published ==> final(bus).pending() == old(bus).pending().push(
                Event::StateInfo(StateEvent::Pyro(a.state)),
            ))
            &&& (!a.published ==> final(bus).pending() == old(bus).pending())
        },
{
    match actuate(controller, transition) {
        Some(step) => {
            let published = publish_progress(bus, step.state);
            Some(Actuation { state: step.state, result: step.result, published })
        },
        None => None,
    }
}

/// What one invocation of the phase handler decided.
#[derive(Debug, Clone, Copy, PartialEq, Eq)]
pub struct PhaseOutcome {
    /// Run the actuation handler once more.
    pub dispatch: bool,
    /// Phase handed to the registry in this invocation.
    pub committed: Option<FlightPhase>,
    /// Whether the registry accepted that phase.
    pub accepted: bool,
    /// Toggle the continuity indicator: propulsion was committed.
    pub toggle_indicator: bool,
}

/// The phase handler, given the sequencer, the phase waiting to be committed,
/// the registry, the event observed (if any) and the phase requested (if any).
///
/// While a path is being run through, it only decides whether the observed
/// event unblocks the state under the cursor, and if so dispatches one more
/// actuation. Once the path is run through, it commits the waiting phase to
/// the registry and clears it; then a requested phase that has an actuation
/// path has that path loaded and started, becomes the waiting phase, and is
/// dispatched. A phase without a path is not sequenced.
pub fn state_handler(
    transition: &mut PyroSequencer,
    pending: &mut Option<FlightPhase>,
    registry: &mut PhaseRegistry,
    event: Option<StateEvent>,
    new_state: Option<FlightPhase>,
) -> (r: PhaseOutcome)
    requires
        old(transition).wf(),
    ensures
        final(transition).wf(),
        !old(transition).is_finished() ==> {
            &&& *final(transition) == *old(transition)
            &&& *final(pending) == *old(pending)
            &&& *final(registry) == *old(registry)
            &&& r.committed is None
            &&& !r.accepted
            &&& !r.toggle_indicator
            &&& r.dispatch == (event matches Some(e) && unblocks(
                old(transition).current()->Some_0,
                e,
            ))
        },
        old(transition).is_finished() ==> {
            &&& r.committed == *old(pending)
            &&& (r.committed is None ==> *final(registry) == *old(registry) && !r.accepted)
            &&& (r.accepted ==> registered(*old(registry)).contains(
                phase_id_spec(r.committed->Some_0),
            ))
            &&& registered(*final(registry)) == registered(*old(registry))
            &&& vetoes(*final(registry)) == vetoes(*old(registry))
            &&& (r.accepted ==> current_phase(*final(registry)) == Some(
                phase_id_spec(r.committed->Some_0),
            ))
            &&& (!r.accepted ==> current_phase(*final(registry)) == current_phase(*old(registry)))
            &&& (*old(pending) matches Some(p) && !vetoes(*old(registry)) && registered(
                *old(registry),
            ).contains(phase_id_spec(p)) ==> r.accepted)
            &&& (*old(pending) is Some && !r.dispatch ==> final(transition).cursor() == INACTIVE
                && final(transition).path() == Seq::<PyroState>::empty())
            &&& (*old(pending) is None && !r.dispatch ==> *final(transition) == *old(transition))
            &&& r.toggle_indicator == (*old(pending) == Some(FlightPhase::PROPULSION))
            &&& r.dispatch == (new_state matches Some(n) && actuation_path_spec(n).len() > 0)
            &&& (r.dispatch ==> {
                &&& final(transition).path() == actuation_path_spec(new_state->Some_0)
                &&& final(transition).cursor() == 0
                &&& *final(pending) == new_state
            })
            &&& (!r.dispatch ==> *final(pending) is None && final(transition).is_finished())
        },
{
    let mut out = PhaseOutcome {
        dispatch: false,
        committed: None,
        accepted: false,
        toggle_indicator: false,
    };
    if !transition.finished() {
        if let Some(fired) = event {
            if let Some(current) = transition.state() {
                let required = current.get_required_events();
                out.dispatch = satisfies(&required, fired);
            }
        }
        return out;
    }
    if let Some(phase) = *pending {
        out.accepted = registry_change_state(registry, phase.id());
        out.committed = Some(phase);
        out.toggle_indicator = phase == FlightPhase::PROPULSION;
        *pending = None;
        transition.reset();
    }
    if let Some(next) = new_state {
        let path = actuation_path(next);
        if path.len() > 0 {
            proof {
                lemma_paths_fit(next);
            }
            transition.reset();
            let mut i: usize = 0;
            while i < path.len()
                invariant
                    path@ == actuation_path_spec(next),
                    path@.len() <= PATH_CAPACITY,
                    i <= path@.len(),
                    transition.wf(),
                    transition.cursor() == INACTIVE,
                    transition.path() == path@.subrange(0, i as int),
                decreases path@.len() - i,
            {
                let _ = transition.add_state(path[i]);
                proof {
                    assert(path@.subrange(0, i + 1) =~= path@.subrange(0, i as int).push(path@[i as int]));
                }
                i = i + 1;
            }
            proof {
                assert(path@.subrange(0, path@.len() as int) =~= path@);
            }
            transition.start();
            *pending = Some(next);
            out.dispatch = true;
        }
    }
    out
}

/// A phase-handler invocation: the event observed and the phase requested.
#[derive(Debug, Clone, Copy, PartialEq, Eq)]
pub struct PhaseRequest {
    pub event: Option<StateEvent>,
    pub new_state: Option<FlightPhase>,
}

/// The invocation that a bus event calls for: a state report is handed on as
/// the observed event, a phase-change request as the requested phase, and a
/// bare pyro report calls for none.
pub open spec fn route_spec(event: Event) -> Option<PhaseRequest> {
    match event {
        Event::StateInfo(e) => Some(PhaseRequest { event: Some(e), new_state: None }),
        Event::StateChangeRequest(p) => Some(PhaseRequest { event: None, new_state: Some(p) }),
        Event::PyroStateInfo(_) => None,
    }
}

/// With no event waiting, the scripted bring-up sequence of the idle loop by
/// step: a bare poll, then a request for `IDLE`, then one for `READY`.
pub open spec fn script_spec(step: u32) -> Option<PhaseRequest> {
    if step == 0 {
        Some(PhaseRequest { event: None, new_state: None })
    } else if step == 1 {
        Some(PhaseRequest { event: None, new_state: Some(FlightPhase::IDLE) })
    } else if step == 2 {
        Some(PhaseRequest { event: None, new_state: Some(FlightPhase::READY) })
    } else {
        None
    }
}

/// One pass of the idle loop: the phase-handler invocation to dispatch for the
/// event taken from the bus, or, when there was none, for scripted step `step`.
pub fn idle_step(event: Option<Event>, step: u32) -> (r: Option<PhaseRequest>)
    ensures
        r == match event {
            Some(e) => route_spec(e),
            None => script_spec(step),
        },
{
    match event {
        Some(Event::StateInfo(e)) => Some(PhaseRequest { event: Some(e), new_state: None }),
        Some(Event::StateChangeRequest(p)) => Some(PhaseRequest { event: None, new_state: Some(p) }),
        Some(Event::PyroStateInfo(_)) => None,
        None => {
            if step == 0 {
                Some(PhaseRequest { event: None, new_state: None })
            } else if step == 1 {
                Some(PhaseRequest { event: None, new_state: Some(FlightPhase::IDLE) })
            } else if step == 2 {
                Some(PhaseRequest { event: None, new_state: Some(FlightPhase::READY) })
            } else {
                None
            }
        },
    }
}

} // verus!
