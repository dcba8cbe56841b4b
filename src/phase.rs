//! Flight phases and the per-phase actuation paths.
use crate::pyro::{pyro_allowed, PyroState};
use crate::state::{legal_chain, MovingState, StateTransition};
use state_governor::state::State;
use state_governor::Governor;
use vstd::prelude::*;

verus! {

/// Top-level mission state, held by the external flight-phase registry.
#[derive(Debug, PartialEq, Eq, Structural, Clone, Copy)]
pub enum FlightPhase {
    IDLE,
    READY,
    IGNITION,
    PROPULSION,
    BURNOUT,
}

/// Identifier of a phase in the registry: its position in declaration order.
pub open spec fn phase_id_spec(p: FlightPhase) -> u8 {
    match p {
        FlightPhase::IDLE => 0,
        FlightPhase::READY => 1,
        FlightPhase::IGNITION => 2,
        FlightPhase::PROPULSION => 3,
        FlightPhase::BURNOUT => 4,
    }
}

/// Name under which a phase is registered.
pub open spec fn phase_name_spec(p: FlightPhase) -> Seq<char> {
    match p {
        FlightPhase::IDLE => "IDLE"@,
        FlightPhase::READY => "READY"@,
        FlightPhase::IGNITION => "IGNITION"@,
        FlightPhase::PROPULSION => "PROPULSION"@,
        FlightPhase::BURNOUT => "BURNOUT"@,
    }
}

impl FlightPhase {
    pub fn name(&self) -> (r: &'static str)
        ensures
            r@ == phase_name_spec(*self),
            r@.len() <= 10,
    {
        proof {
            reveal_strlit("IDLE");
            reveal_strlit("READY");
            reveal_strlit("IGNITION");
            reveal_strlit("PROPULSION");
            reveal_strlit("BURNOUT");
        }
        match self {
            FlightPhase::IDLE => "IDLE",
            FlightPhase::READY => "READY",
            FlightPhase::IGNITION => "IGNITION",
            FlightPhase::PROPULSION => "PROPULSION",
            FlightPhase::BURNOUT => "BURNOUT",
        }
    }

    pub fn id(&self) -> (r: u8)
        ensures
            r == phase_id_spec(*self),
    {
        match self {
            FlightPhase::IDLE => 0,
            FlightPhase::READY => 1,
            FlightPhase::IGNITION => 2,
            FlightPhase::PROPULSION => 3,
            FlightPhase::BURNOUT => 4,
        }
    }

    /// The phase with the given registry identifier, if any.
    pub fn from_id(id: u8) -> (r: Option<FlightPhase>)
        ensures
            r matches Some(p) ==> phase_id_spec(p) == id,
            r is None <==> id > 4,
    {
        match id {
            0 => Some(FlightPhase::IDLE),
            1 => Some(FlightPhase::READY),
            2 => Some(FlightPhase::IGNITION),
            3 => Some(FlightPhase::PROPULSION),
            4 => Some(FlightPhase::BURNOUT),
            _ => None,
        }
    }
}

/// Number of flight phases, and of entries in the phase registry.
pub const PHASE_COUNT: usize = 5;

/// Longest actuation path the pyro sequencer holds.
pub const PATH_CAPACITY: usize = 5;

/// The sequencer that drives the pyro subsystem through an actuation path.
pub type PyroSequencer = StateTransition<PyroState, PATH_CAPACITY>;

/// The external flight-phase registry.
pub type PhaseRegistry = Governor<PHASE_COUNT>;

#[verifier::external_type_specification]
#[verifier::external_body]
pub struct ExGovernor<const N: usize>(Governor<N>);

/// Identifiers of the phases registered in a registry.
pub uninterp spec fn registered(g: Governor<5>) -> Set<u8>;

/// Identifier of the registry's current phase, if it has one.
pub uninterp spec fn current_phase(g: Governor<5>) -> Option<u8>;

/// Whether a transition hook is installed that may veto phase changes.
pub uninterp spec fn vetoes(g: Governor<5>) -> bool;

/// Identifier a new registry reports as current before any phase is made so.
pub const UNKNOWN_PHASE: u8 = 0xFF;

/// Relies on state-governor's `Governor::new`: a new registry holds no phase,
/// has the unknown state (identifier `0xFF`) current, and no transition hook.
#[verifier::external_body]
fn registry_new() -> (g: PhaseRegistry)
    ensures
        registered(g) == Set::<u8>::empty(),
        current_phase(g) == Some(UNKNOWN_PHASE),
        !vetoes(g),
{
    Governor::new()
}

/// Relies on state-governor's `Governor::add_state`, given a `State` built by
/// `State::new` (which panics on a name longer than 32 characters): adds the
/// phase unless its identifier is registered already, and says whether it
/// did. Adding a new identifier to a full registry panics.
#[verifier::external_body]
fn registry_add_state(registry: &mut PhaseRegistry, id: u8, name: &str) -> (added: bool)
    requires
        name@.len() <= 32,
        registered(*old(registry)).finite(),
        registered(*old(registry)).contains(id) || registered(*old(registry)).len() < PHASE_COUNT,
    ensures
        added == !registered(*old(registry)).contains(id),
        registered(*final(registry)) == registered(*old(registry)).insert(id),
        current_phase(*final(registry)) == current_phase(*old(registry)),
        vetoes(*final(registry)) == vetoes(*old(registry)),
{
    registry.add_state(State::new(id, name))
}

/// Relies on state-governor's `Governor::change_state_to`: asks the registry to
/// make the phase with identifier `id` current. It refuses an identifier that
/// is not registered; a registered one is accepted unless an installed
/// transition hook vetoes it. Only an accepted phase becomes current.
#[verifier::external_body]
pub(crate) fn registry_change_state(registry: &mut PhaseRegistry, id: u8) -> (accepted: bool)
    ensures
        accepted ==> registered(*old(registry)).contains(id),
        !vetoes(*old(registry)) ==> accepted == registered(*old(registry)).contains(id),
        accepted ==> current_phase(*final(registry)) == Some(id),
        !accepted ==> current_phase(*final(registry)) == current_phase(*old(registry)),
        registered(*final(registry)) == registered(*old(registry)),
        vetoes(*final(registry)) == vetoes(*old(registry)),
{
    registry.change_state_to(id)
}

/// Identifiers of all flight phases.
pub open spec fn all_phase_ids() -> Set<u8> {
    set![0u8, 1u8, 2u8, 3u8, 4u8]
}

/// The registry at boot: every flight phase registered under its identifier
/// and name, no transition hook, and `IDLE` current. The flag is the
/// registry's answer to making `IDLE` current, which is always yes.
pub fn new_registry() -> (r: (PhaseRegistry, bool))
    ensures
        registered(r.0) == all_phase_ids(),
        current_phase(r.0) == Some(phase_id_spec(FlightPhase::IDLE)),
        !vetoes(r.0),
        r.1,
{
    let mut registry = registry_new();
    let phases = [
        FlightPhase::IDLE,
        FlightPhase::READY,
        FlightPhase::IGNITION,
        FlightPhase::PROPULSION,
        FlightPhase::BURNOUT,
    ];
    let mut i: usize = 0;
    while i < 5
        invariant
            i <= 5,
            phases@ == seq![
                FlightPhase::IDLE,
                FlightPhase::READY,
                FlightPhase::IGNITION,
                FlightPhase::PROPULSION,
                FlightPhase::BURNOUT,
            ],
            registered(registry) == Set::new(|id: u8| id < i),
            registered(registry).finite(),
            registered(registry).len() == i,
            !vetoes(registry),
        decreases 5 - i,
    {
        let phase = phases[i];
        assert(phase_id_spec(phase) == i);
        proof {
            assert(!registered(registry).contains(i as u8));
            assert(Set::new(|id: u8| id < i).insert(i as u8) =~= Set::new(|id: u8| id < i + 1));
        }
        registry_add_state(&mut registry, phase.id(), phase.name());
        i = i + 1;
    }
    let accepted = registry_change_state(&mut registry, FlightPhase::IDLE.id());
    proof {
        assert(Set::new(|id: u8| id < 5) =~= all_phase_ids());
    }
    (registry, accepted)
}

/// Actuation path that must be run through before a phase is committed.
/// Phases without one are not sequenced.
pub open spec fn actuation_path_spec(phase: FlightPhase) -> Seq<PyroState> {
    match phase {
        FlightPhase::READY => seq![PyroState::CHARGING, PyroState::READY],
        FlightPhase::IGNITION => seq![PyroState::IDLE],
        FlightPhase::PROPULSION => seq![PyroState::CHARGING, PyroState::READY],
        _ => Seq::empty(),
    }
}

/// Every actuation path fits in the pyro sequencer.
pub proof fn lemma_paths_fit(phase: FlightPhase)
    ensures
        actuation_path_spec(phase).len() <= PATH_CAPACITY,
{
}

/// The actuation path of `phase`, empty when the phase has none.
pub fn actuation_path(phase: FlightPhase) -> (r: Vec<PyroState>)
    ensures
        r@ == actuation_path_spec(phase),
{
    let r = match phase {
        FlightPhase::READY => vec![PyroState::CHARGING, PyroState::READY],
        FlightPhase::IGNITION => vec![PyroState::IDLE],
        FlightPhase::PROPULSION => vec![PyroState::CHARGING, PyroState::READY],
        FlightPhase::IDLE | FlightPhase::BURNOUT => Vec::new(),
    };
    proof {
        assert(r@ =~= actuation_path_spec(phase));
    }
    r
}

/// Every actuation path only takes steps that the legality table allows.
pub proof fn lemma_paths_are_legal(phase: FlightPhase)
    ensures
        legal_chain(actuation_path_spec(phase)),
{
    let p = actuation_path_spec(phase);
    assert forall|i: int| 0 <= i < p.len() - 1 implies (#[trigger] p[i]).allows(p[i + 1]) by {
        assert(pyro_allowed(PyroState::CHARGING, PyroState::READY));
    }
}

/// No actuation path fires a channel: firing is never part of a phase change.
pub proof fn lemma_paths_never_fire(phase: FlightPhase)
    ensures
        forall|i: int|
            0 <= i < actuation_path_spec(phase).len() ==> !(#[trigger] actuation_path_spec(
                phase,
            )[i] is FIRING),
{
}

} // verus!
