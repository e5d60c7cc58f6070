//! Version-adapter layer for a multi-version rollup execution engine.
//!
//! A rollup re-executes historical transaction batches with the exact
//! virtual-machine implementation that produced each batch, so several
//! incompatible raw result shapes survive side by side. This crate maps each
//! historical shape onto one canonical result schema without altering any
//! value that feeds determinism-sensitive computations: gas accounting, log
//! content, and the execution status itself are carried over bit for bit.

pub mod canonical;
pub mod classifier;
pub mod convert;
pub mod laws;
pub mod raw;
