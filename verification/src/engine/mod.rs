//! Decision logic of the engine firmware (STM32): what each task does with
//! the commands, readings and errors it receives.
pub mod bus;
pub mod led;
pub mod reflex;
pub mod error;
pub mod network;
pub mod distance;
pub mod polling;
pub mod encoder;
