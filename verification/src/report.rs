//! The report line built for one mounted disk: its mount point and its
//! total and available capacity, both in human-readable form.

use vstd::prelude::*;
use vstd::string::StringExecFns;

use crate::format::spec_format_size;
use crate::format::format_size;

verus! {

/// What `disk_line` returns: the mount path, the formatted total, and the
/// formatted free space, with the exact historical spacing (no space after
/// `total:`, one after `free:`).
pub open spec fn spec_disk_line(mount: Seq<char>, total: u64, free: u64) -> Seq<char> {
    mount + " total:"@ + spec_format_size(total) + " free: "@ + spec_format_size(free)
}

/// Builds the one-line report for a disk. No validation is done: a `free`
/// greater than `total` is rendered as given.
pub fn disk_line(mount: &str, total: u64, free: u64) -> (line: String)
    ensures
        line@ == spec_disk_line(mount@, total, free),
{
    let mut line = mount.to_owned();
    line.append(" total:");
    let t = format_size(total);
    line.append(t.as_str());
    line.append(" free: ");
    let f = format_size(free);
    line.append(f.as_str());
    proof {
        assert(line@ =~= spec_disk_line(mount@, total, free));
    }
    line
}

} // verus!
