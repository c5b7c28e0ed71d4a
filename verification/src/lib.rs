//! A personal address book: contacts stored one vCard file each, a derived
//! tab-separated search index, substring queries piped through an external
//! line filter, and creation of new contacts from an email's sender.
//!
//! The library holds the logic: the document model and its round trip
//! (`contact`, `vcard`), index assembly and its order independence
//! (`index`), query parsing and the three output projections (`query`), the
//! sender heuristic (`ingest`), and the configuration rules (`config`). The
//! program around it — argument handling, the filesystem, the filter and
//! editor processes — stays outside the library and hands it plain values.
#![verifier::loop_isolation(false)]

pub mod config;
pub mod contact;
pub mod error;
pub mod index;
pub mod ingest;
pub mod query;
pub mod strutil;
pub mod vcard;
