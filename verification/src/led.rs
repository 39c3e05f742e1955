//! The LEDs of the board.
//!
//! Each LED hangs on an output pin that sinks its current: it is lit while the pin is low.

use vstd::prelude::*;

verus! {

/// The output level of a pin.
#[derive(Clone, Copy, Debug, PartialEq, Eq, Structural)]
pub enum Level {
    /// The pin is driven low.
    Low,
    /// The pin is driven high.
    High,
}

/// A GPIO port.
#[derive(Clone, Copy, Debug, PartialEq, Eq, Structural)]
pub enum Port {
    /// Port 0, the pins P0.00 to P0.31.
    Port0,
    /// Port 1, the pins P1.00 to P1.15.
    Port1,
}

/// A push-pull output pin: where it is, and the level it is driven to.
#[derive(Clone, Copy, Debug, PartialEq, Eq, Structural)]
pub struct Pin {
    /// The port of the pin.
    pub port: Port,
    /// The number of the pin in its port.
    pub pin: u8,
    /// The level that the pin is driven to.
    pub level: Level,
}

/// A single LED. Its view is the pin that drives it.
#[derive(Debug, PartialEq, Eq, Structural)]
pub struct Led {
    inner: Pin,
}

impl View for Led {
    type V = Pin;

    closed spec fn view(&self) -> Pin {
        self.inner
    }
}

impl Pin {
    /// Whether an LED on this pin is lit.
    pub open spec fn lights(self) -> bool {
        self.level == Level::Low
    }

    /// This pin driven to `level`.
    pub open spec fn driven(self, level: Level) -> Pin {
        Pin { level, ..self }
    }

    /// This pin driven to the other level.
    pub open spec fn flipped(self) -> Pin {
        self.driven(
            match self.level {
                Level::Low => Level::High,
                Level::High => Level::Low,
            },
        )
    }
}

impl Led {
    /// The LED that `inner` drives.
    pub fn new(inner: Pin) -> (led: Led)
        ensures
            led@ == inner,
    {
        Led { inner }
    }

    /// The pin that drives the LED, with the level it is to have.
    pub fn pin(&self) -> (pin: Pin)
        ensures
            pin == self@,
    {
        self.inner
    }

    /// Turns on the LED
    pub fn on(&mut self)
        ensures
            final(self)@ == old(self)@.driven(Level::Low),
            final(self)@.level == Level::Low,
            final(self)@.port == old(self)@.port,
            final(self)@.pin == old(self)@.pin,
    {
        self.inner.level = Level::Low;
    }

    /// Turns off the LED
    pub fn off(&mut self)
        ensures
            final(self)@ == old(self)@.driven(Level::High),
            final(self)@.level == Level::High,
            final(self)@.port == old(self)@.port,
            final(self)@.pin == old(self)@.pin,
    {
        self.inner.level = Level::High;
    }

    /// Returns `true` if the LED is in the OFF state
    pub fn is_off(&mut self) -> (off: bool)
        ensures
            off == !old(self)@.lights(),
            off <==> old(self)@.level == Level::High,
            *final(self) == *old(self),
    {
        self.inner.level == Level::High
    }

    /// Returns `true` if the LED is in the ON state
    pub fn is_on(&mut self) -> (on: bool)
        ensures
            on == old(self)@.lights(),
            on <==> old(self)@.level == Level::Low,
            *final(self) == *old(self),
    {
        !self.is_off()
    }

    /// Toggles the state (on/off) of the LED
    pub fn toggle(&mut self)
        ensures
            final(self)@ == old(self)@.flipped(),
            old(self)@.level == Level::High ==> final(self)@.level == Level::Low,
            old(self)@.level == Level::Low ==> final(self)@.level == Level::High,
            final(self)@.port == old(self)@.port,
            final(self)@.pin == old(self)@.pin,
    {
        if self.is_off() {
            self.on();
        } else {
            self.off()
        }
    }
}

/// Switching an LED sets the level of its pin and nothing else, whatever the pin: what drives
/// the pin to a level leaves it at just that level, on the same port and under the same number.
pub proof fn law_switching_sets_the_level(pin: Pin, level: Level)
    ensures
        pin.driven(level).level == level,
        pin.driven(level).port == pin.port,
        pin.driven(level).pin == pin.pin,
        pin.flipped().level != pin.level,
        pin.flipped().port == pin.port,
        pin.flipped().pin == pin.pin,
{
}

/// An LED is lit by a low pin, whatever the pin: two LEDs whose pins have the same level are
/// both lit or both dark, and the level that lights them is the low one.
pub proof fn law_low_lights(pin: Pin, other: Pin)
    ensures
        pin.lights() <==> pin.level == Level::Low,
        pin.level == other.level <==> pin.lights() == other.lights(),
{
}

/// Toggling an LED twice leaves it as it was.
pub proof fn law_toggle_twice(pin: Pin)
    ensures
        pin.flipped().flipped() == pin,
{
}

/// An LED is on once it was turned on, off once it was turned off, and in the other of the two
/// states once it was toggled.
pub proof fn law_switching(pin: Pin)
    ensures
        pin.driven(Level::Low).lights(),
        !pin.driven(Level::High).lights(),
        pin.flipped().lights() == !pin.lights(),
{
}

/// Turning an LED on or off does not depend on what was done to it before.
pub proof fn law_last_switch_wins(pin: Pin, before: Level, level: Level)
    ensures
        pin.driven(before).driven(level) == pin.driven(level),
        pin.flipped().driven(level) == pin.driven(level),
{
}

} // verus!
