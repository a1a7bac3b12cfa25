//! Entry-point synthesis for robot-controller firmware images.
//!
//! A program's entry is written as one `async fn` that takes the device's
//! peripherals handle. This library checks such a declaration and, when it
//! is acceptable, describes the code that turns it into a firmware entry:
//! the safe `main` wrapper, the raw `_start` trampoline and the code
//! signature record that the loader reads.
pub mod decl;
pub mod diagnostic;
pub mod synth;
pub mod validate;
