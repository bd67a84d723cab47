//! Pin bindings for the SPI drivers.
//!
//! A pin is identified by its number in the port and tagged with its
//! electrical direction by its type: [`OutputPin`] is a push-pull output,
//! [`InputPin`] a floating input. Pin values move into a driver at
//! construction, so the same binding cannot back two live drivers.

use vstd::prelude::*;

verus! {

/// A push-pull output pin, with its observable level.
pub struct OutputPin {
    /// Pin number within the port.
    pub pin: u8,
    /// Current driven level: `true` is high.
    pub high: bool,
}

impl OutputPin {
    /// Takes the pin `pin` as a push-pull output, initially driven low.
    pub fn new(pin: u8) -> (p: OutputPin)
        ensures
            p.pin == pin,
            p.high == false,
    {
        OutputPin { pin, high: false }
    }

    /// Drives the pin high.
    pub fn set_high(&mut self)
        ensures
            *final(self) == (OutputPin { high: true, ..*old(self) }),
    {
        self.high = true;
    }

    /// Drives the pin low.
    pub fn set_low(&mut self)
        ensures
            *final(self) == (OutputPin { high: false, ..*old(self) }),
    {
        self.high = false;
    }

    /// Whether the pin is currently driven high.
    pub fn is_set_high(&self) -> (r: bool)
        ensures
            r == self.high,
    {
        self.high
    }
}

/// A floating input pin.
pub struct InputPin {
    /// Pin number within the port.
    pub pin: u8,
}

impl InputPin {
    /// Takes the pin `pin` as a floating input.
    pub fn new(pin: u8) -> (p: InputPin)
        ensures
            p.pin == pin,
    {
        InputPin { pin }
    }
}

} // verus!
