//! Client-side tree resolution for an offline-first, end-to-end-encrypted
//! filesystem workspace.
//!
//! The library walks a hierarchy of versioned manifests (file and folder
//! metadata records) held in a local manifest store, filling that store from a
//! remote service on a cache miss, and projects the manifest reached by a
//! slash-separated path into a caller-facing entry summary.  Along the walk it
//! tracks the nearest enclosing "confinement point": the topmost ancestor
//! folder that locally hides the entry from synchronization.
//!
//! Remote fetches and every other kind of I/O stay outside the library: the
//! resolution functions either answer from the store or hand back the entry
//! identifier they need, and a resume function accepts whatever the fetch
//! produced.

pub mod bytes;
pub mod errors;
pub mod ids;
pub mod info;
pub mod manifest;
pub mod message;
pub mod name;
pub mod protocol;
pub mod resolve;
pub mod storage;
