//! Planning and bookkeeping for loading the TPC-H benchmark tables into a
//! relational store, one partition at a time.
//!
//! The crate decides *what* has to happen for a load request and in which
//! order; the caller performs the file and database work and reports back
//! how each step went.

pub mod error;
pub mod laws;
pub mod orchestrator;
pub mod queries;
pub mod request;
pub mod staging;
pub mod table;
pub mod text;
