//! Decision core of an append-only note service.
//!
//! A request names a buffer and carries a text fragment. The fragment is
//! appended to an encrypted file inside a local mirror of a git repository,
//! and the change is committed and pushed. This crate holds every decision
//! of that process as verified functions over plain values: how names and
//! paths are formed, how the settings are read, and which operation follows
//! which outcome. Touching the disk, the network and other processes is
//! left to the caller, who performs the operations the crate asks for and
//! reports back what happened.

pub mod buffer;
pub mod clock;
pub mod config;
pub mod errors;
pub mod names;
pub mod pipeline;
pub mod publish;
pub mod repo;
