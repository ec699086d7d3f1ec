//! What holds of the controller as a whole.

pub mod access;
pub mod events;
pub mod layouts;
pub mod messages;
pub mod pages;
pub mod partition;
pub mod registers;
pub mod scan;
pub mod timers;
