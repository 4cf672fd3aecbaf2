//! The tenant directory: apps, numbers and the admission check for
//! incoming calls.

pub mod storage;
