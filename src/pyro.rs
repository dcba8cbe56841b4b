//! Pyrotechnic actuation: the posture states with their legality table, and
//! the controller that owns the charge, discharge and channel outputs.
use crate::event::{empty_event_list, listed, push_event, EventList, StateEvent};
use crate::pin::Output;
use crate::state::MovingState;
use embedded_hal::digital::v2::OutputPin;
use vstd::prelude::*;

verus! {

/// Output channel of the pyro board. `Any` only matches in events and is
/// never actuated.
#[derive(Debug, PartialEq, Eq, Structural, Clone, Copy)]
pub enum PyroChannelName {
    Pyro1,
    Pyro2,
    Ignition,
    Any,
}

/// Actuation posture of the pyro subsystem.
#[derive(Debug, PartialEq, Eq, Structural, Clone, Copy)]
pub enum PyroState {
    IDLE,
    CHARGING,
    DISCHARGING,
    READY,
    FIRING(PyroChannelName),
}


/// The legality table of pyro postures: which state may directly follow
/// which. Nothing outside it is ever allowed.
pub open spec fn pyro_allowed(current: PyroState, next: PyroState) -> bool {
    match current {
        PyroState::IDLE => next == PyroState::CHARGING || next == PyroState::DISCHARGING,
        PyroState::CHARGING => next == PyroState::DISCHARGING || next == PyroState::READY,
        PyroState::DISCHARGING => next == PyroState::CHARGING,
        PyroState::READY => next is FIRING || next == PyroState::IDLE,
        PyroState::FIRING(_) => next == PyroState::CHARGING || next == PyroState::DISCHARGING,
    }
}

/// Confirmation that must be observed before a posture is entered: `READY`
/// waits for charging, firing waits for `READY`; the others wait for nothing.
pub open spec fn pyro_required(state: PyroState) -> Seq<StateEvent> {
    match state {
        PyroState::READY => seq![StateEvent::Pyro(PyroState::CHARGING)],
        PyroState::FIRING(_) => seq![StateEvent::Pyro(PyroState::READY)],
        _ => Seq::empty(),
    }
}

impl MovingState for PyroState {
    open spec fn allows(&self, next: PyroState) -> bool {
        pyro_allowed(*self, next)
    }

    open spec fn required_events(&self) -> Seq<StateEvent> {
        pyro_required(*self)
    }

    fn get_required_events(&self) -> (r: EventList) {
        let mut events = empty_event_list();
        match self {
            PyroState::READY => {
                push_event(&mut events, StateEvent::Pyro(PyroState::CHARGING));
            },
            PyroState::FIRING(_) => {
                push_event(&mut events, StateEvent::Pyro(PyroState::READY));
            },
            _ => {},
        }
        proof {
            assert(listed(events) =~= pyro_required(*self));
        }
        events
    }

    fn is_transition_allowed(&self, state: PyroState) -> (r: bool) {
        match self {
            PyroState::IDLE => state == PyroState::CHARGING || state == PyroState::DISCHARGING,
            PyroState::CHARGING => state == PyroState::DISCHARGING || state == PyroState::READY,
            PyroState::DISCHARGING => state == PyroState::CHARGING,
            PyroState::READY => {
                if let PyroState::FIRING(_) = state {
                    true
                } else {
                    state == PyroState::IDLE
                }
            },
            PyroState::FIRING(_) => state == PyroState::CHARGING || state == PyroState::DISCHARGING,
        }
    }
}

/// Failure of a controller operation.
#[derive(Debug, PartialEq, Eq, Structural, Clone, Copy)]
pub enum PyroError {
    /// The controller already holds as many channels as its capacity.
    ControllerIsFull,
    /// An output refused a level change.
    PyroChannelError,
    /// A requested posture could not be applied.
    StateChangeError(PyroState),
}

/// A named pyro output.
pub struct PyroChannel<IO> {
    pub name: PyroChannelName,
    pub pin: Output<IO, false>,
}

impl<IO: OutputPin> PyroChannel<IO> {
    pub fn enable(&mut self) -> (r: Result<(), PyroError>)
        ensures
            final(self).name == old(self).name,
            r is Ok ==> final(self).pin.is_enabled(),
            r is Err ==> final(self).pin.level() == old(self).pin.level(),
            r is Err ==> r == Err::<(), PyroError>(PyroError::PyroChannelError),
    {
        match self.pin.enable() {
            Ok(()) => Ok(()),
            Err(_) => Err(PyroError::PyroChannelError),
        }
    }

    pub fn disable(&mut self) -> (r: Result<(), PyroError>)
        ensures
            final(self).name == old(self).name,
            r is Ok ==> final(self).pin.is_disabled(),
            r is Err ==> final(self).pin.level() == old(self).pin.level(),
            r is Err ==> r == Err::<(), PyroError>(PyroError::PyroChannelError),
    {
        match self.pin.disable() {
            Ok(()) => Ok(()),
            Err(_) => Err(PyroError::PyroChannelError),
        }
    }
}

/// Every channel output is de-energized.
pub open spec fn all_disabled<IO>(channels: Seq<PyroChannel<IO>>) -> bool {
    forall|i: int| 0 <= i < channels.len() ==> (#[trigger] channels[i]).pin.is_disabled()
}

/// Channel names, in order.
pub open spec fn names_of<IO>(channels: Seq<PyroChannel<IO>>) -> Seq<PyroChannelName> {
    channels.map_values(|c: PyroChannel<IO>| c.name)
}

/// Between `old` and `new`, every channel was either turned off or left at
/// its level: none was energized.
pub open spec fn none_raised<IO>(new: Seq<PyroChannel<IO>>, old: Seq<PyroChannel<IO>>) -> bool {
    &&& new.len() == old.len()
    &&& forall|i: int|
        0 <= i < new.len() ==> (#[trigger] new[i]).pin.is_disabled() || new[i].pin.level()
            == old[i].pin.level()
}

/// No channel is called `name`.
pub open spec fn unheld<IO>(channels: Seq<PyroChannel<IO>>, name: PyroChannelName) -> bool {
    forall|k: int| 0 <= k < channels.len() ==> (#[trigger] channels[k]).name != name
}

/// `k` is the first channel called `name`.
pub open spec fn first_named<IO>(
    channels: Seq<PyroChannel<IO>>,
    name: PyroChannelName,
    k: int,
) -> bool {
    &&& 0 <= k < channels.len()
    &&& channels[k].name == name
    &&& forall|j: int| 0 <= j < k ==> (#[trigger] channels[j]).name != name
}

/// Owner of the charge output, the inverted discharge output and at most `N`
/// named channels, with an advisory ready flag and the posture last applied.
pub struct PyroController<IO, const N: usize> {
    charge: Output<IO, false>,
    discharge: Output<IO, true>,
    channels: Vec<PyroChannel<IO>>,
    ready: bool,
    state: PyroState,
}

impl<IO, const N: usize> PyroController<IO, N> {
    pub closed spec fn charge_out(&self) -> Output<IO, false> {
        self.charge
    }

    pub closed spec fn discharge_out(&self) -> Output<IO, true> {
        self.discharge
    }

    pub closed spec fn channels(&self) -> Seq<PyroChannel<IO>> {
        self.channels@
    }

    pub closed spec fn ready_flag(&self) -> bool {
        self.ready
    }

    pub closed spec fn posture(&self) -> PyroState {
        self.state
    }

    pub open spec fn wf(&self) -> bool {
        self.channels().len() <= N
    }

    /// The outputs other than the channels drive the levels of `other`.
    pub open spec fn same_supply(&self, other: &Self) -> bool {
        &&& self.charge_out().level() == other.charge_out().level()
        &&& self.discharge_out().level() == other.discharge_out().level()
    }

    /// Output levels after a global reconfiguration from `old` that ends with
    /// charge at `charge_on` and discharge at `discharge_on`: when it
    /// succeeded every channel is off and both supplies are set; in any case
    /// no channel was energized, and the supplies were only touched once
    /// every channel was off.
    pub open spec fn reconfigured(
        &self,
        old: &Self,
        ok: bool,
        charge_on: bool,
        discharge_on: bool,
    ) -> bool {
        &&& self.wf()
        &&& names_of(self.channels()) == names_of(old.channels())
        &&& none_raised(self.channels(), old.channels())
        &&& (ok ==> {
            &&& all_disabled(self.channels())
            &&& if charge_on {
                self.charge_out().is_enabled()
            } else {
                self.charge_out().is_disabled()
            }
            &&& if discharge_on {
                self.discharge_out().is_enabled()
            } else {
                self.discharge_out().is_disabled()
            }
        })
        &&& (!all_disabled(self.channels()) ==> self.same_supply(old))
    }

    /// Output levels after firing `name` from `old`: only the first channel
    /// so named may change, and it is on when the firing succeeded; with no
    /// such channel nothing changes.
    pub open spec fn fired(&self, old: &Self, name: PyroChannelName, ok: bool) -> bool {
        &&& self.wf()
        &&& self.charge_out() == old.charge_out()
        &&& self.discharge_out() == old.discharge_out()
        &&& self.channels().len() == old.channels().len()
        &&& names_of(self.channels()) == names_of(old.channels())
        &&& forall|k: int|
            0 <= k < old.channels().len() && !first_named(old.channels(), name, k) ==> (
            #[trigger] self.channels()[k]) == old.channels()[k]
        &&& forall|k: int|
            first_named(old.channels(), name, k) ==> (ok ==> (
            #[trigger] self.channels()[k]).pin.is_enabled()) && (!ok
                ==> self.channels()[k].pin.level() == old.channels()[k].pin.level())
    }

    /// Output levels after applying posture `state` from `old`.
    pub open spec fn applied(&self, old: &Self, state: PyroState, ok: bool) -> bool {
        match state {
            PyroState::IDLE => self.reconfigured(old, ok, true, true),
            PyroState::CHARGING => self.reconfigured(old, ok, true, false),
            PyroState::DISCHARGING => self.reconfigured(old, ok, false, true),
            PyroState::READY => self.reconfigured(old, ok, false, false),
            PyroState::FIRING(name) => self.fired(old, name, ok),
        }
    }
}

impl<IO: OutputPin, const N: usize> PyroController<IO, N> {
    pub fn new(charge: Output<IO, false>, discharge: Output<IO, true>) -> (r: Self)
        ensures
            r.wf(),
            r.charge_out() == charge,
            r.discharge_out() == discharge,
            r.channels() == Seq::<PyroChannel<IO>>::empty(),
            !r.ready_flag(),
            r.posture() == PyroState::IDLE,
    {
        PyroController {
            charge,
            discharge,
            channels: Vec::with_capacity(N),
            ready: false,
            state: PyroState::IDLE,
        }
    }

    /// Takes ownership of `channel`, unless `N` channels are held already.
    pub fn add_channel(&mut self, channel: PyroChannel<IO>) -> (r: Result<(), PyroError>)
        requires
            old(self).wf(),
        ensures
            final(self).wf(),
            r is Ok == accepts_addition(old(self).channels().len(), N as nat),
            final(self).channels().len() == held_after_addition(
                old(self).channels().len(),
                N as nat,
            ),
            r is Ok ==> final(self).channels() == old(self).channels().push(channel),
            r is Err ==> final(self).channels() == old(self).channels(),
            r is Err ==> r == Err::<(), PyroError>(PyroError::ControllerIsFull),
            final(self).charge_out() == old(self).charge_out(),
            final(self).discharge_out() == old(self).discharge_out(),
            final(self).ready_flag() == old(self).ready_flag(),
            final(self).posture() == old(self).posture(),
    {
        if self.channels.len() < N {
            self.channels.push(channel);
            Ok(())
        } else {
            Err(PyroError::ControllerIsFull)
        }
    }

    /// Turns every channel off. Each channel is tried even after a failure,
    /// and the failure is reported.
    fn disable_all_channels(&mut self) -> (r: Result<(), PyroError>)
        requires
            old(self).wf(),
        ensures
            final(self).wf(),
            final(self).same_supply(old(self)),
            final(self).ready_flag() == old(self).ready_flag(),
            final(self).posture() == old(self).posture(),
            names_of(final(self).channels()) == names_of(old(self).channels()),
            none_raised(final(self).channels(), old(self).channels()),
            r is Ok ==> all_disabled(final(self).channels()),
            r is Err ==> r == Err::<(), PyroError>(PyroError::PyroChannelError),
    {
        let mut result: Result<(), PyroError> = Ok(());
        let n = self.channels.len();
        let mut i: usize = 0;
        while i < n
            invariant
                n == self.channels@.len(),
                n == old(self).channels@.len(),
                i <= n,
                self.wf(),
                self.same_supply(old(self)),
                self.ready == old(self).ready,
                self.state == old(self).state,
                forall|j: int|
                    0 <= j < n ==> (#[trigger] self.channels@[j]).name == old(
                        self,
                    ).channels@[j].name,
                forall|j: int| i <= j < n ==> (#[trigger] self.channels@[j]) == old(self).channels@[j],
                none_raised(self.channels@, old(self).channels@),
                result is Ok ==> forall|j: int|
                    0 <= j < i ==> (#[trigger] self.channels@[j]).pin.is_disabled(),
                result is Err ==> result == Err::<(), PyroError>(PyroError::PyroChannelError),
            decreases n - i,
        {
            if self.channels[i].disable().is_err() {
                result = Err(PyroError::PyroChannelError);
            }
            i = i + 1;
        }
        proof {
            assert(names_of(self.channels@) =~= names_of(old(self).channels@));
        }
        result
    }

    /// Charges: every channel off, discharge off, then charge on.
    pub fn charge(&mut self) -> (r: Result<(), PyroError>)
        requires
            old(self).wf(),
        ensures
            final(self).reconfigured(old(self), r is Ok, true, false),
            r is Err ==> r == Err::<(), PyroError>(PyroError::PyroChannelError),
            final(self).ready_flag() == old(self).ready_flag(),
            final(self).posture() == old(self).posture(),
    {
        if self.disable_all_channels().is_err() {
            return Err(PyroError::PyroChannelError);
        }
        if self.discharge.disable().is_err() {
            return Err(PyroError::PyroChannelError);
        }
        if self.charge.enable().is_err() {
            return Err(PyroError::PyroChannelError);
        }
        Ok(())
    }

    /// Bleeds stored energy: every channel off, charge off, then discharge on.
    pub fn discharge(&mut self) -> (r: Result<(), PyroError>)
        requires
            old(self).wf(),
        ensures
            final(self).reconfigured(old(self), r is Ok, false, true),
            r is Err ==> r == Err::<(), PyroError>(PyroError::PyroChannelError),
            final(self).ready_flag() == old(self).ready_flag(),
            final(self).posture() == old(self).posture(),
    {
        if self.disable_all_channels().is_err() {
            return Err(PyroError::PyroChannelError);
        }
        if self.charge.disable().is_err() {
            return Err(PyroError::PyroChannelError);
        }
        if self.discharge.enable().is_err() {
            return Err(PyroError::PyroChannelError);
        }
        Ok(())
    }

    /// Continuity-check posture: every channel off, charge and discharge on.
    pub fn continuous_state(&mut self) -> (r: Result<(), PyroError>)
        requires
            old(self).wf(),
        ensures
            final(self).reconfigured(old(self), r is Ok, true, true),
            r is Err ==> r == Err::<(), PyroError>(PyroError::PyroChannelError),
            final(self).ready_flag() == old(self).ready_flag(),
            final(self).posture() == old(self).posture(),
    {
        if self.disable_all_channels().is_err() {
            return Err(PyroError::PyroChannelError);
        }
        if self.charge.enable().is_err() {
            return Err(PyroError::PyroChannelError);
        }
        if self.discharge.enable().is_err() {
            return Err(PyroError::PyroChannelError);
        }
        Ok(())
    }

    /// Isolated posture: every channel off, discharge and charge off.
    pub fn closed_state(&mut self) -> (r: Result<(), PyroError>)
        requires
            old(self).wf(),
        ensures
            final(self).reconfigured(old(self), r is Ok, false, false),
            r is Err ==> r == Err::<(), PyroError>(PyroError::PyroChannelError),
            final(self).ready_flag() == old(self).ready_flag(),
            final(self).posture() == old(self).posture(),
    {
        if self.disable_all_channels().is_err() {
            return Err(PyroError::PyroChannelError);
        }
        if self.discharge.disable().is_err() {
            return Err(PyroError::PyroChannelError);
        }
        if self.charge.disable().is_err() {
            return Err(PyroError::PyroChannelError);
        }
        Ok(())
    }

    /// Turns on the first channel called `channel_name`, leaving the supplies
    /// and every other channel as they are. Whether firing is safe is decided
    /// by the sequencer's legality table, not here.
    pub fn fire(&mut self, channel_name: PyroChannelName) -> (r: Result<(), PyroError>)
        requires
            old(self).wf(),
        ensures
            final(self).fired(old(self), channel_name, r is Ok),
            r is Err ==> r == Err::<(), PyroError>(PyroError::PyroChannelError),
            unheld(old(self).channels(), channel_name) ==> r is Ok,
            final(self).ready_flag() == old(self).ready_flag(),
            final(self).posture() == old(self).posture(),
    {
        let n = self.channels.len();
        let mut i: usize = 0;
        while i < n
            invariant
                n == self.channels@.len(),
                i <= n,
                self.channels@ == old(self).channels@,
                self.charge == old(self).charge,
                self.discharge == old(self).discharge,
                self.ready == old(self).ready,
                self.state == old(self).state,
                self.wf(),
                forall|j: int| 0 <= j < i ==> (#[trigger] self.channels@[j]).name != channel_name,
            decreases n - i,
        {
            if self.channels[i].name == channel_name {
                let r = self.channels[i].enable();
                proof {
                    assert(first_named(old(self).channels@, channel_name, i as int));
                    assert forall|k: int| first_named(old(self).channels@, channel_name, k) implies k
                        == i by {
                        if k < i {
                        } else if k > i {
                            assert(old(self).channels@[i as int].name == channel_name);
                        }
                    }
                    assert(names_of(self.channels@) =~= names_of(old(self).channels@));
                }
                return r;
            }
            i = i + 1;
        }
        proof {
            assert(names_of(self.channels@) =~= names_of(old(self).channels@));
        }
        Ok(())
    }

    /// Applies posture `new_state` with the matching operation (idle is the
    /// continuity posture, ready the isolated one) and records it when that
    /// succeeded. Says whether the recorded posture changed.
    pub fn change_state(&mut self, new_state: PyroState) -> (r: Result<bool, PyroError>)
        requires
            old(self).wf(),
        ensures
            final(self).applied(old(self), new_state, r is Ok),
            final(self).ready_flag() == old(self).ready_flag(),
            r is Ok ==> final(self).posture() == new_state,
            r is Ok ==> r == Ok::<bool, PyroError>(old(self).posture() != new_state),
            r is Err ==> final(self).posture() == old(self).posture(),
            r is Err ==> r == Err::<bool, PyroError>(PyroError::StateChangeError(new_state)),
            new_state matches PyroState::FIRING(n) && unheld(old(self).channels(), n) ==> r is Ok,
    {
        let outcome = match new_state {
            PyroState::IDLE => self.continuous_state(),
            PyroState::CHARGING => self.charge(),
            PyroState::DISCHARGING => self.discharge(),
            PyroState::READY => self.closed_state(),
            PyroState::FIRING(channel) => self.fire(channel),
        };
        match outcome {
            Ok(()) => {
                let changed = self.state != new_state;
                self.state = new_state;
                Ok(changed)
            },
            Err(_) => Err(PyroError::StateChangeError(new_state)),
        }
    }

    pub fn is_ready(&self) -> (r: bool)
        ensures
            r == self.ready_flag(),
    {
        self.ready
    }

    pub fn set_ready(&mut self, ready: bool)
        ensures
            final(self).ready_flag() == ready,
            final(self).channels() == old(self).channels(),
            final(self).same_supply(old(self)),
            final(self).posture() == old(self).posture(),
    {
        self.ready = ready;
    }

    pub fn get_state(&self) -> (r: PyroState)
        ensures
            r == self.posture(),
    {
        self.state
    }

    pub fn channel_count(&self) -> (r: usize)
        ensures
            r == self.channels().len(),
    {
        self.channels.len()
    }
}

/// Firing is only ever entered from `READY`.
pub proof fn lemma_firing_only_from_ready(current: PyroState, channel: PyroChannelName)
    ensures
        pyro_allowed(current, PyroState::FIRING(channel)) ==> current == PyroState::READY,
{
}

/// The engine board's controller: charge and discharge supplies, and the
/// channels `Pyro1`, `Ignition` and `Pyro2`, in that order.
pub fn initialize_pyro_controller<IO: OutputPin>(
    charge: Output<IO, false>,
    discharge: Output<IO, true>,
    pyro1: Output<IO, false>,
    pyro2: Output<IO, false>,
    ignition: Output<IO, false>,
) -> (r: PyroController<IO, 3>)
    ensures
        r.wf(),
        r.charge_out() == charge,
        r.discharge_out() == discharge,
        r.channels() == seq![
            (PyroChannel { name: PyroChannelName::Pyro1, pin: pyro1 }),
            (PyroChannel { name: PyroChannelName::Ignition, pin: ignition }),
            (PyroChannel { name: PyroChannelName::Pyro2, pin: pyro2 }),
        ],
        !r.ready_flag(),
        r.posture() == PyroState::IDLE,
{
    let mut controller = PyroController::new(charge, discharge);
    let _ = controller.add_channel(PyroChannel { name: PyroChannelName::Pyro1, pin: pyro1 });
    let _ = controller.add_channel(PyroChannel { name: PyroChannelName::Ignition, pin: ignition });
    let _ = controller.add_channel(PyroChannel { name: PyroChannelName::Pyro2, pin: pyro2 });
    proof {
        assert(controller.channels() =~= seq![
            (PyroChannel { name: PyroChannelName::Pyro1, pin: pyro1 }),
            (PyroChannel { name: PyroChannelName::Ignition, pin: ignition }),
            (PyroChannel { name: PyroChannelName::Pyro2, pin: pyro2 }),
        ]);
    }
    controller
}

/// Whether a controller of capacity `cap` holding `held` channels accepts one
/// more.
pub open spec fn accepts_addition(held: nat, cap: nat) -> bool {
    held < cap
}

/// Number of channels held after one addition to `held` under capacity `cap`.
pub open spec fn held_after_addition(held: nat, cap: nat) -> nat {
    if accepts_addition(held, cap) {
        held + 1
    } else {
        held
    }
}

/// Outcomes of `count` calls of `add_channel` on a controller of capacity
/// `cap` that holds `held` channels, each step as `add_channel`'s contract
/// states it through `accepts_addition` and `held_after_addition`.
pub open spec fn addition_outcomes(held: nat, count: nat, cap: nat) -> Seq<bool>
    decreases count,
{
    if count == 0 {
        Seq::empty()
    } else {
        seq![accepts_addition(held, cap)] + addition_outcomes(
            held_after_addition(held, cap),
            (count - 1) as nat,
            cap,
        )
    }
}

proof fn lemma_additions_from(held: nat, count: nat, cap: nat)
    requires
        held <= cap,
    ensures
        addition_outcomes(held, count, cap) =~= Seq::new(count, |i: int| held + i < cap),
    decreases count,
{
    if count > 0 {
        lemma_additions_from(held_after_addition(held, cap), (count - 1) as nat, cap);
    }
}

/// Starting with no channel, a controller of capacity `n` accepts exactly
/// the first `n` additions and refuses every one after them.
pub proof fn lemma_channel_capacity(n: nat, extra: nat)
    ensures
        addition_outcomes(0, n + extra, n) =~= Seq::new(n + extra, |i: int| i < n),
{
    lemma_additions_from(0, n + extra, n);
}

} // verus!
