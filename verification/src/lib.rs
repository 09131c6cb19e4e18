//! Automatic monitor input-source switching.
//!
//! Three components, none sharing state:
//! - display identity: stable labels for connected displays, and collision
//!   detection across a display set;
//! - DDC/CI switch executor: reads and conditionally writes the input-select
//!   register of one display;
//! - command runner: plans and classifies the execution of a user-configured
//!   shell command line.

pub mod decimal;
pub mod display_identity;
pub mod switch_executor;
pub mod command_runner;
