//! A sample capsule for an embedded kernel: it is handed an alarm and a
//! humidity sensor driver at start-up, and offers the two callbacks through
//! which the kernel reports that the alarm fired and that a reading is ready.

pub mod tutorial;

pub use tutorial::Tutorial;
