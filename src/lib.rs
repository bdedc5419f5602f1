//! Binding native classes into a script interpreter.
//!
//! `builder` describes a class; `class` owns the native values of the built
//! classes and runs the check-out and check-in protocol that the interpreter's
//! trampolines follow; `slots` is the handle table beneath it; `refs` hands
//! out integer references with reuse; `timer` holds the schedule of script
//! timers and the frame clock.
pub mod builder;
pub mod class;
pub mod error;
pub mod refs;
pub mod slots;
pub mod timer;
