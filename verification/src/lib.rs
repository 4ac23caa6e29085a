//! Human-readable byte-size formatting for a disk-space report.
//!
//! `format` turns a byte count into a display string such as `4.2 GB`;
//! `report` builds the one-line summary printed for each mounted disk.

pub mod format;
pub mod report;
