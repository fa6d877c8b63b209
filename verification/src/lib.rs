//! Page management for a single-file, disk-backed store.
//!
//! A store is one flat file cut into pages of a fixed size. The first page
//! holds the header; every page is addressed by a 1-based identifier. This
//! crate holds the rules of that format: how a header is laid out and
//! validated, how opening a file is resolved from what is observed of it, and
//! which region of the file a page occupies. It performs no I/O itself: the
//! caller observes the file, asks the `Pager` what to do, and carries it out.

pub mod bytes;
pub mod error;
pub mod header;
pub mod pager;
pub mod theorems;
