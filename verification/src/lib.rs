//! Asynchronous file reads and writes over a completion queue: the operation
//! descriptor, the interpretation of what a submission and a completion
//! reported, and the engine that decides how a completed request continues.
//!
//! The library decides; the program around it performs the system calls and
//! runs the callbacks.
pub mod async_data;
pub mod file;
pub mod io_worker;
pub mod round_trip;
pub mod tools;
pub mod win_api_helper;
