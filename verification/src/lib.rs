//! Idempotent provisioning and invocation pipeline for a cloud-backed code
//! signing workflow.
//!
//! The library holds the verified core: deciding which files are eligible for
//! signing, computing the workspace layout, serialising the signing metadata,
//! assembling the argument vectors for the external identity and signing
//! tools, and sequencing the whole run as a state machine that tells its
//! caller which outside step (probe, download, extraction, write, process
//! invocation) to perform next.  All file, network and process I/O is left to
//! the embedding binary, which feeds the outcome of each step back in as an
//! event.

pub mod classify;
pub mod invocation;
pub mod metadata;
pub mod orchestrator;
pub mod strutil;
pub mod trace;
pub mod workspace;
