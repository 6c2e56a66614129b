//! Decision logic of the control program on the main system (Jetson):
//! keyboard teleoperation, the serial session, and the reports it logs.
pub mod input;
pub mod session;
pub mod report;
