//! Verified building blocks for status-bar blocklets: an interval timer that
//! answers to clicks, and readers for the kernel's counter files.
//!
//! The timer is a state machine ([`model`]) that walks round a cycle of
//! focus and pause intervals ([`schedule`]). [`timer`] holds it together with
//! a reading of the wall clock ([`clock`]), [`command`] reads the clicks that
//! move it, [`render`] writes the line that shows it, and [`driver`] decides
//! what the loops around it do next.
//!
//! The readers ([`cpu_usage`], [`mem_usage`], [`bandwidth`]) take the text of
//! a file under `/proc` and give the counters in it; [`text`] and
//! [`decimal`] cut text and read and write numbers for them.
//!
//! Two modules stand between the library and the crates it calls: [`json`]
//! for `serde_json` and [`pattern`] for `regex`. What they state of those
//! crates is believed, not proved.

pub mod bandwidth;
pub mod clock;
pub mod command;
pub mod cpu_usage;
pub mod decimal;
pub mod driver;
pub mod json;
pub mod mem_usage;
pub mod model;
pub mod pattern;
pub mod render;
pub mod schedule;
pub mod span;
pub mod text;
pub mod timer;
