//! Verified decision layer for handles over wolfCrypt's hash, XOF and CMAC
//! primitives.
//!
//! The native library does the cryptography; a handle's owner performs each
//! native call. This crate decides, before each call, whether it may be made
//! and with which sizes, turns the native status code that comes back into a
//! typed result, and keeps a model of what the native state has absorbed.
pub mod algorithm;
pub mod cmac;
pub mod hash;
pub mod status;
pub mod xof;
