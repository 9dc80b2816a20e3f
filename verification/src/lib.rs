//! Verified core of a workspace cleaner: size accounting over a snapshot of a
//! directory tree, detection of build-artifact caches, and the plan of a scan.

pub mod cleaner;
pub mod config;
pub mod entry;
pub mod report;
pub mod scan;
pub mod tree;
