//! Blink controller for a single push-pull output pin: the decisions of the
//! firmware's main loop as a verified state machine, the take-once guard over
//! the peripheral tokens, and a timeline of the pin that the controller drives.

pub mod blink;
pub mod ownership;
pub mod timeline;
