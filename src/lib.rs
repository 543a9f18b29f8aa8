//! An Intel 8080 interpreter: architectural CPU state, a fetch-decode-execute
//! step against an abstract memory-and-I/O bus, and a flat 64 KiB machine with
//! a CP/M console driver.

pub mod bus;
pub mod cpu;
pub mod decode;
pub mod semantics;
pub mod laws;
pub mod machine;
pub mod cpm;
pub mod trace;
pub mod loader;
