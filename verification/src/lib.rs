//! Board support logic for the nRF52840 Development Kit, and a line chat client.
//!
//! See <https://www.nordicsemi.com/Products/Development-hardware/nrf52840-dk>
//!
//! Everything here is computation, on plain values and, for the radio, on the packet buffer of
//! its driver. Registers, pins, the radio and the network are driven by the program around
//! this library, which hands in what it read and carries out what it gets back.

pub mod board;
pub mod client;
pub mod clock;
pub mod led;
pub mod packet;
pub mod radio;
pub mod time;
pub mod timer;

pub use board::{init, Board, Error, Leds};
pub use clock::uptime;
pub use led::Led;
pub use radio::send_recv;
pub use timer::Timer;
