//! The routines with which a guest drives the devices.

pub mod console;
pub mod echo;
pub mod event;
pub mod io;
pub mod keyboard;
pub mod timer;
