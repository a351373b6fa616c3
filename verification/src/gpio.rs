//! The relay pin capability: a handle that can be driven electrically high or
//! low. The levels a handle has been driven to are modelled as a sequence, so
//! that pulse behaviour can be stated and proved. `LoggingGpio` is the
//! software implementation: it records the levels instead of driving hardware.

use vstd::prelude::*;

verus! {

/// Failure to acquire a pin from the GPIO peripheral.
#[derive(Debug, Clone, Copy, PartialEq, Eq, Structural)]
pub struct GpioError {
    pub pin: u8,
}

/// An exclusively owned handle on one GPIO pin.
///
/// `history()` is the ordered sequence of levels the pin has been driven to
/// since it was acquired (`true` = high, `false` = low): the observable
/// electrical behaviour of the relay this pin controls.
pub trait GpioPin: Sized {
    /// The pin number this handle controls.
    spec fn pin_id(&self) -> u8;

    /// Every level this handle has been driven to, in order.
    spec fn history(&self) -> Seq<bool>;

    fn pin(&self) -> (r: u8)
        ensures
            r == self.pin_id(),
    ;

    fn set_high(&mut self)
        ensures
            final(self).pin_id() == old(self).pin_id(),
            final(self).history() == old(self).history().push(true),
    ;

    fn set_low(&mut self)
        ensures
            final(self).pin_id() == old(self).pin_id(),
            final(self).history() == old(self).history().push(false),
    ;
}

/// A GPIO peripheral: hands out exclusively owned pin handles.
pub trait Gpio: Sized {
    type Pin: GpioPin;

    /// Whether acquiring this pin number succeeds.
    spec fn get_ok(&self, pin: u8) -> bool;

    fn get(&self, pin: u8) -> (r: Result<Self::Pin, GpioError>)
        ensures
            r is Ok <==> self.get_ok(pin),
            r matches Ok(p) ==> p.pin_id() == pin && p.history() == Seq::<bool>::empty(),
            r matches Err(e) ==> e == (GpioError { pin }),
    ;
}

/// A software GPIO peripheral: its pins record the levels they are driven to
/// instead of touching hardware. Used when no hardware backend is configured,
/// and by tests to observe pulse behaviour.
pub struct LoggingGpio {}

impl LoggingGpio {
    pub fn new() -> LoggingGpio {
        LoggingGpio {}
    }
}

/// A pin handed out by `LoggingGpio`: holds its number and the levels driven.
pub struct LoggingGpioPin {
    pin: u8,
    levels: Vec<bool>,
}

impl LoggingGpioPin {
    /// The recorded levels, for observation.
    pub fn levels(&self) -> (r: &Vec<bool>)
        ensures
            r@ == self.history(),
    {
        &self.levels
    }
}

impl GpioPin for LoggingGpioPin {
    closed spec fn pin_id(&self) -> u8 {
        self.pin
    }

    closed spec fn history(&self) -> Seq<bool> {
        self.levels@
    }

    fn pin(&self) -> u8 {
        self.pin
    }

    fn set_high(&mut self) {
        self.levels.push(true);
    }

    fn set_low(&mut self) {
        self.levels.push(false);
    }
}

impl Gpio for LoggingGpio {
    type Pin = LoggingGpioPin;

    open spec fn get_ok(&self, pin: u8) -> bool {
        true
    }

    fn get(&self, pin: u8) -> Result<LoggingGpioPin, GpioError> {
        Ok(LoggingGpioPin { pin, levels: Vec::new() })
    }
}

} // verus!
