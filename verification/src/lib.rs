//! Board support for the Electrosmith Daisy Pod on top of the Daisy Seed:
//! the pod's pinout (`peri`) and the decisions of its peripheral demo
//! (`controls`).

pub mod controls;
pub mod peri;
