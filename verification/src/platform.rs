//! Platform-specific content parsing: the pure halves of the probes that
//! read the Linux and Android system interfaces.

pub mod android;
pub mod linux;
