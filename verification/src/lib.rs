//! The decisions of a small framework-hosted echo driver, stated and proved.
//!
//! The driver framework owns every object the driver touches and calls the
//! driver back at moments of its own choosing. What the driver itself decides
//! is little, and all of it lives here as plain functions on plain values:
//! which configuration it hands to the framework, in which order it makes its
//! calls, when it stops early, and which status it reports. The code that
//! actually talks to the framework performs the actions these functions name
//! and feeds the framework's answers back in.

pub mod status;
pub mod attributes;
pub mod power;
pub mod device;
pub mod interrupt;
