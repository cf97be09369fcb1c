//! Core of a driver for the CYW43 family of WiFi coprocessors.
//!
//! The crate holds what the driver decides and computes: the structures
//! that cross the bus and their encodings, the framing of packets, the
//! rendezvous through which ioctls are handed to the bus owner, and the
//! control plane that brings the chip up, joins a network and scans. It
//! performs no I/O: whoever owns the bus and the clock carries out the
//! actions that the control plane asks for and reports back.

pub mod backplane;
pub mod bus;
pub mod bytes;
pub mod consts;
pub mod control;
pub mod countries;
pub mod events;
pub mod ioctl;
pub mod iovar;
pub mod power;
pub mod runner;
pub mod scripts;
pub mod sdpcm;
pub mod structs;

pub use power::PowerManagementMode;
