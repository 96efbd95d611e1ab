//! Ownership bookkeeping for native font-library handles.
//!
//! The font libraries themselves are reached through a foreign-function
//! boundary that this crate never crosses. Every operation is instead a small
//! conversation: the crate names the native call to make, the caller makes it
//! and hands the answer back, and the crate decides what follows. What is proved
//! here is the part that corrupts memory when it is wrong: which handle is
//! passed to which call, what a failure releases, and that every claim on a
//! native object is given up exactly once.
#![allow(non_upper_case_globals)]
#![allow(non_camel_case_types)]

pub mod face;
pub mod fontconfig;
pub mod laws;
pub mod ledger;
pub mod library;
pub mod name;
pub mod native;
pub mod path;
pub mod protocol;
pub mod status;
pub mod text;
pub mod variation;
