//! A small "system fetch" library: it turns machine facts (user, host,
//! operating system, kernel, uptime, CPU, GPU inventory, memory and swap)
//! into a fixed nine-line textual report.
//!
//! The library itself performs no I/O: callers collect the raw facts and
//! the captured output of a PCI-enumeration command, and the library
//! filters, formats and assembles the report.

pub mod gpu;
pub mod numfmt;
pub mod report;
pub mod strutil;
