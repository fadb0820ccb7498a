//! Host-side bridge between an editor and one helper (plugin) process.
//!
//! The crate holds the decisions of the bridge: which remote calls exist, how their
//! parameters are validated, what each call does to the shared editor state, what
//! the peer is told, and how the life of one plugin process advances. Process
//! handling, pipes and threads are the embedding program's business; it feeds this
//! library plain values and carries out what the library decides.

pub mod text;
pub mod json;
pub mod editor;
pub mod request;
pub mod decode;
pub mod dispatch;
pub mod supervisor;
