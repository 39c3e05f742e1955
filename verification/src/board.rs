//! The board: what it is made of, and how it comes up.

use crate::led::{Led, Level, Pin, Port};
use crate::timer::Timer;
use vstd::prelude::*;

verus! {

/// Components on the board
pub struct Board {
    /// LEDs
    pub leds: Leds,
    /// Timer
    pub timer: Timer,
}

/// All LEDs on the board
pub struct Leds {
    /// LED1: pin P0.13, green LED
    pub _1: Led,
    /// LED2: pin P0.14, green LED
    pub _2: Led,
    /// LED3: pin P0.15, green LED
    pub _3: Led,
    /// LED4: pin P0.16, green LED
    pub _4: Led,
}

/// The ways that initialisation can fail
#[derive(Clone, Copy, Debug, PartialEq, Eq, Structural)]
pub enum Error {
    /// You tried to initialise the board twice
    DoubleInit,
}

impl Error {
    /// The number that stands for the failure.
    pub fn code(self) -> (code: u8)
        ensures
            code == match self {
                Error::DoubleInit => 1u8,
            },
    {
        match self {
            Error::DoubleInit => 1,
        }
    }
}

/// The pin `pin` of port 0 as it drives an LED that is off.
pub open spec fn dark(pin: u8) -> Pin {
    Pin { port: Port::Port0, pin, level: Level::High }
}

impl Board {
    /// Whether the board is as it is right after initialisation: every LED on its pin and
    /// off, and no wait under way.
    pub open spec fn fresh(self) -> bool {
        &&& self.leds._1@ == dark(13)
        &&& self.leds._2@ == dark(14)
        &&& self.leds._3@ == dark(15)
        &&& self.leds._4@ == dark(16)
        &&& self.timer@ == Seq::<u32>::empty()
    }
}

/// The LED on the pin `pin` of port 0, turned off.
fn dark_led(pin: u8) -> (led: Led)
    ensures
        led@ == dark(pin),
{
    Led::new(Pin { port: Port::Port0, pin, level: Level::High })
}

/// Whether initialisation with `peripherals` comes out as `started`: with a fresh board and
/// the peripherals, if there are any, and else with the error.
pub open spec fn init_outcome<P>(
    peripherals: Option<P>,
    started: Result<(P, Board), Error>,
) -> bool {
    match peripherals {
        Some(p) => started matches Ok((q, board)) && q == p && board.fresh(),
        None => started == Err::<(P, Board), Error>(Error::DoubleInit),
    }
}

/// Initializes the board
///
/// `peripherals` are the peripherals of the device, if they were still to be had: there is
/// one set of them, and the first to ask for it gets it. They are handed back for the
/// hardware to be configured with.
///
/// This returns an `Err`or if called more than once
pub fn init<P>(peripherals: Option<P>) -> (started: Result<(P, Board), Error>)
    ensures
        init_outcome(peripherals, started),
        peripherals is Some <==> started is Ok,
        started matches Ok((p, board)) ==> {
            &&& peripherals == Some(p)
            &&& board.leds._1@.port == Port::Port0 && board.leds._1@.pin == 13
            &&& board.leds._2@.port == Port::Port0 && board.leds._2@.pin == 14
            &&& board.leds._3@.port == Port::Port0 && board.leds._3@.pin == 15
            &&& board.leds._4@.port == Port::Port0 && board.leds._4@.pin == 16
            &&& board.leds._1@.level == Level::High
            &&& board.leds._2@.level == Level::High
            &&& board.leds._3@.level == Level::High
            &&& board.leds._4@.level == Level::High
            &&& board.timer@.len() == 0
        },
        started matches Err(error) ==> error == Error::DoubleInit,
{
    match peripherals {
        Some(p) => {
            // NOTE LEDs turn on when the pin output level is low
            let leds = Leds {
                _1: dark_led(13),
                _2: dark_led(14),
                _3: dark_led(15),
                _4: dark_led(16),
            };
            Ok((p, Board { leds, timer: Timer::new() }))
        },
        None => Err(Error::DoubleInit),
    }
}

/// A fresh board has its LEDs on the pins 13 to 16 of port 0, in their order, and each of these
/// pins is high.
pub proof fn law_fresh_board(board: Board)
    requires
        board.fresh(),
    ensures
        board.leds._1@.pin == 13,
        board.leds._2@.pin == board.leds._1@.pin + 1,
        board.leds._3@.pin == board.leds._2@.pin + 1,
        board.leds._4@.pin == board.leds._3@.pin + 1,
        board.leds._1@.port == Port::Port0 && board.leds._1@.level == Level::High,
        board.leds._2@.port == Port::Port0 && board.leds._2@.level == Level::High,
        board.leds._3@.port == Port::Port0 && board.leds._3@.level == Level::High,
        board.leds._4@.port == Port::Port0 && board.leds._4@.level == Level::High,
        board.timer@.len() == 0,
{
}

/// Initialisation succeeds exactly if it gets the peripherals, and then hands back these and no
/// others.
pub proof fn law_init_needs_peripherals<P>(
    peripherals: Option<P>,
    started: Result<(P, Board), Error>,
)
    requires
        init_outcome(peripherals, started),
    ensures
        started is Ok <==> peripherals is Some,
        started matches Ok((p, _)) ==> peripherals == Some(p),
        started matches Ok((_, board)) ==> board.fresh(),
        started matches Err(error) ==> error == Error::DoubleInit,
{
}

/// The board comes up once: of two initialisations that did not both get the one set of
/// peripherals, the one beside a successful one fails, and says why.
pub proof fn law_init_succeeds_once<P>(
    first: Option<P>,
    second: Option<P>,
    started: Result<(P, Board), Error>,
    again: Result<(P, Board), Error>,
)
    requires
        first is None || second is None,
        init_outcome(first, started),
        init_outcome(second, again),
        started is Ok,
    ensures
        again == Err::<(P, Board), Error>(Error::DoubleInit),
{
}

} // verus!
