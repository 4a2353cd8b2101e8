//! A verified model of the CMOS real-time clock of a virtual machine, with the BCD
//! conversions it relies on, and two small helpers: capitalizing words and computing
//! factorials.

pub mod bcd;
pub mod capitalize;
pub mod factorial;
pub mod rtc;
