//! Readable dumps of the claims held in a mobile driving-license document.
//!
//! The library models a decoded element as a [`value::TaggedValue`], renders it
//! to text, builds the per-namespace claims report, and decides where a command
//! sends its output.
pub mod args;
pub mod render;
pub mod report;
pub mod value;
