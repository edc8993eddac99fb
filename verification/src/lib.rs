//! Host-side control of the RGB lighting of a Logitech G203 mouse.
//!
//! The crate holds the protocol and none of the I/O: [`effect`] lays out the
//! twenty-byte report of each lighting effect, and [`exchange`] decides, one
//! request at a time, what a host has to ask of the USB stack to deliver such
//! a report. The caller performs each request and tells the exchange how it
//! went. [`controller`] keeps the settings of a session and begins the
//! exchange for each effect, [`run`] states what holds of every exchange
//! whatever the device answers, and [`util`] reads colours from text.

pub mod controller;
pub mod effect;
pub mod error;
pub mod exchange;
pub mod run;
pub mod util;

pub use controller::Controller;
pub use effect::Direction;
pub use error::Error;
