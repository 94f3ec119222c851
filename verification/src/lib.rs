//! A tamper-evident manifest of a file set.
//!
//! The library discovers every regular file reachable from a list of root
//! paths, digests each file's content, and assembles the resulting
//! (path, digest) collection into a signed JSON manifest. Its heart is the
//! coordinator of a concurrent discovery-and-hashing engine: a priority
//! queue of pending work, an outstanding-job ledger, and the bookkeeping
//! that detects completion without knowing the file list in advance.
//! Threads, channels and file reads live outside the library; every
//! decision they carry out is specified and proved here.

pub mod coordinator;
pub mod digest;
pub mod error;
pub mod identity;
pub mod manifest;
pub mod job;
pub mod queue;

pub use coordinator::Coordinator;
pub use error::Error;
pub use identity::{AnyIdentity, Identity, IdentityDoc, PrivateIdentity, PublicIdentity, SignKey, VerifyKey};
pub use job::{DirEntry, JobType, PathKind};
