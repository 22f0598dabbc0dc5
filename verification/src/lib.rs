//! A uniform write path onto an object-storage backend, and the decision core
//! of a protocol gateway that exposes that storage as a network filesystem.
//!
//! The backend writer builds a single-shot upload request, hands it to the
//! signing and transport collaborators, and interprets their reply into
//! success or a structured error. The gateway routes every inbound request to
//! one protocol handler over a filesystem adapter; the adapter translates
//! generic filesystem verbs into calls on the shared storage operator. All
//! network and signing work is done by collaborators outside this crate: this
//! crate states and proves what is decided between those calls.

pub mod adapter;
pub mod error;
pub mod gateway;
pub mod operator;
pub mod request;
pub mod writer;
