//! The verified core of a small virtual-machine monitor.
//!
//! The monitor loads a guest program into memory, starts a virtual CPU at the
//! program's entry point and answers every exit of the CPU from three small
//! devices: a console, a keyboard and a timer. What touches the host (the
//! virtualization facility, memory mappings, threads, standard input and
//! output) is left to the program around this library. Here is what that
//! program has to decide, with proofs that it is decided as stated:
//!
//! - [`image`]: which sections of a guest image are copied into memory, and
//!   where; [`memory`]: where the regions of guest memory lie; [`vcpu`]: the
//!   registers a guest starts with; [`setup`]: all three, in the order in
//!   which a machine is built.
//! - [`console`], [`keyboard`], [`timer`]: the state of each device and what
//!   happens to it.
//! - [`devices`]: the port map, the answer to each exit, and what a run of
//!   exits amounts to.
//! - [`guest`]: the routines with which a guest drives the devices, proved
//!   against the devices themselves, and [`loopback`]: the devices behind
//!   ports in the same process.

pub mod console;
pub mod devices;
pub mod guest;
pub mod image;
pub mod keyboard;
pub mod loopback;
pub mod memory;
pub mod setup;
pub mod timer;
pub mod vcpu;
