//! Scans a directory tree for files whose content digest is a known-malicious
//! signature, and drives their removal.
pub mod digest;
pub mod digest_map;
pub mod engine;
pub mod error;
pub mod launcher;
pub mod remediation;
pub mod scan;
pub mod signatures;
