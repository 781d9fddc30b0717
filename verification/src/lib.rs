//! Host-side engine of a cellular automaton whose generations are computed on
//! a parallel device: the transition rules, the grid sizes, the seeded first
//! generation, the layout of the kernel's bindings and the ping-pong protocol
//! between the two cell buffers.
//!
//! Everything here works on plain values. The caller owns the device: it
//! creates the buffers and pipelines that the plans of this crate describe and
//! records the dispatches that [`computer::Computer::enqueue`] decides.

pub mod computer;
pub mod event_loop;
pub mod generator;
pub mod grid;
pub mod payload;
pub mod rules;
pub mod seeding;
