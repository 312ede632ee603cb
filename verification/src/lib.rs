//! A one-line system status report: the time of day, the time since boot, the
//! number of logged-in users and the three load averages.
//!
//! The library holds everything that can be decided from plain values: how
//! the kernel's replies are decoded and validated, which session records
//! count as users, how the elapsed time is split, and the exact text of the
//! report. Reading the clock, the kernel and the session accounting file is
//! left to the caller.

pub mod clock;
pub mod query;
pub mod report;
pub mod sessions;
pub mod text;
pub mod uptime;
