//! Peripheral access layer for the Kinetis KE06Z microcontroller.
//!
//! Drivers describe their work as programs of register accesses (see
//! [`bus::Access`]); a program runs either on the chip or on the simulated
//! register file [`bus::RegisterFile`].

pub mod bus;
pub mod gpio;
pub mod ics;
pub mod osc;
pub mod registers;
pub mod sim;
pub mod uart;
