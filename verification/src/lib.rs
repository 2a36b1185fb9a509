//! Monitor enumeration reporting and event-loop controller logic.
//!
//! The library renders the textual report that the program prints for each
//! attached monitor, and drives the application controller's state machine:
//! which callbacks request loop termination, and when the graphics-context
//! slot is released.

pub mod decimal;
pub mod monitor;
pub mod controller;
