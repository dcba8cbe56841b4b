//! Digital outputs with a polarity fixed at compile time, so that "enable"
//! always means "energize" whatever the wiring.
use embedded_hal::digital::v2::OutputPin;
use vstd::prelude::*;

verus! {

/// Relies on embedded-hal's `OutputPin::set_high`: drives the pin high and
/// reports whether the driver accepted the request.
#[verifier::external_body]
fn drive_high<IO: OutputPin>(pin: &mut IO) -> (ok: bool) {
    pin.set_high().is_ok()
}

/// Relies on embedded-hal's `OutputPin::set_low`: drives the pin low and
/// reports whether the driver accepted the request.
#[verifier::external_body]
fn drive_low<IO: OutputPin>(pin: &mut IO) -> (ok: bool) {
    pin.set_low().is_ok()
}

/// A pin-level operation that the driver refused.
#[derive(Debug, PartialEq, Eq, Structural, Clone, Copy)]
pub enum PinError {
    OutputError,
}

/// An output pin together with the electrical level that was last driven on
/// it successfully. With `INVERTED` the output is energized by driving it low.
pub struct Output<IO, const INVERTED: bool> {
    pin: IO,
    level: Option<bool>,
}

impl<IO, const INVERTED: bool> Output<IO, INVERTED> {
    /// Level last driven successfully (`true` is high); `None` before any.
    pub closed spec fn level(&self) -> Option<bool> {
        self.level
    }

    /// The pin this output drives.
    pub closed spec fn pin(&self) -> IO {
        self.pin
    }

    /// The level that energizes this output.
    pub open spec fn active_level() -> bool {
        !INVERTED
    }

    pub open spec fn is_enabled(&self) -> bool {
        self.level() == Some(Self::active_level())
    }

    pub open spec fn is_disabled(&self) -> bool {
        self.level() == Some(!Self::active_level())
    }
}

impl<IO: OutputPin, const INVERTED: bool> Output<IO, INVERTED> {
    pub fn new(pin: IO) -> (r: Self)
        ensures
            r.pin() == pin,
            r.level() == None::<bool>,
    {
        Output { pin, level: None }
    }

    /// Settles a request to drive `high` that the driver answered with
    /// `accepted`: an accepted level is recorded, a refused one reported.
    fn record(&mut self, high: bool, accepted: bool) -> (r: Result<(), PinError>)
        ensures
            r is Ok <==> accepted,
            accepted ==> final(self).level() == Some(high),
            !accepted ==> final(self).level() == old(self).level(),
            !accepted ==> r == Err::<(), PinError>(PinError::OutputError),
    {
        if accepted {
            self.level = Some(high);
            Ok(())
        } else {
            Err(PinError::OutputError)
        }
    }

    /// Drives `high` and records it when the driver accepts it.
    fn drive(&mut self, high: bool) -> (r: Result<(), PinError>)
        ensures
            r is Ok ==> final(self).level() == Some(high),
            r is Err ==> final(self).level() == old(self).level(),
            r is Err ==> r == Err::<(), PinError>(PinError::OutputError),
    {
        let accepted = if high {
            drive_high(&mut self.pin)
        } else {
            drive_low(&mut self.pin)
        };
        self.record(high, accepted)
    }

    /// Level last driven successfully (`true` is high); `None` before any.
    pub fn driven_level(&self) -> (r: Option<bool>)
        ensures
            r == self.level(),
    {
        self.level
    }

    /// Energizes the output: high, or low when inverted.
    pub fn enable(&mut self) -> (r: Result<(), PinError>)
        ensures
            r is Ok ==> final(self).is_enabled(),
            r is Err ==> final(self).level() == old(self).level(),
            r is Err ==> r == Err::<(), PinError>(PinError::OutputError),
    {
        self.drive(!INVERTED)
    }

    /// De-energizes the output: low, or high when inverted.
    pub fn disable(&mut self) -> (r: Result<(), PinError>)
        ensures
            r is Ok ==> final(self).is_disabled(),
            r is Err ==> final(self).level() == old(self).level(),
            r is Err ==> r == Err::<(), PinError>(PinError::OutputError),
    {
        self.drive(INVERTED)
    }
}

} // verus!
