//! A synthetic interrupt controller for virtual processors.
//!
//! A partition's [`global::GlobalSynic`] gives each virtual processor a
//! [`processor::ProcessorSynic`]. Messages and timer expirations reach the
//! guest through the processor's message page, events through its event flags
//! page.

pub mod access;
pub mod global;
pub mod laws;
pub mod lock;
pub mod message;
pub mod model;
pub mod overlay;
pub mod processor;
pub mod registers;
pub mod shared;
pub mod sint;
pub mod timer;
