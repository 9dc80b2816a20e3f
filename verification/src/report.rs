//! The lines a scan reports, with byte counts in human-readable form.

use vstd::prelude::*;
use vstd::string::StringExecFns;

verus! {

/// The text that `bytesize` displays for a byte count: below 1024 the count, a
/// space and `B`; from there on the count in binary units (KiB, MiB, ...) with one
/// decimal.
pub uninterp spec fn human_size(bytes: u64) -> Seq<char>;

/// Calls `bytesize::ByteSize::b` and formats the result with its `Display` impl.
/// The contract only names the text: it is the same for the same count, and nothing
/// else is claimed of it.
#[verifier::external_body]
fn size_text(bytes: u64) -> (r: String)
    ensures
        r@ == human_size(bytes),
{
    format!("{}", bytesize::ByteSize::b(bytes))
}

/// The line that reports one detected project, over the path and the size as they
/// are shown.
pub open spec fn finding_text(cleaner: Seq<char>, path: Seq<char>, size: Seq<char>) -> Seq<char> {
    "Found a "@ + cleaner + " project in "@ + path + ", can save "@ + size
}

/// The line that closes a scan, over the rendered total.
pub open spec fn summary_text(total: Seq<char>, dry_run: bool) -> Seq<char> {
    if dry_run {
        "Total space to be saved: "@ + total
    } else {
        "Total space saved: "@ + total
    }
}

/// The line that opens a scan, over the root as it is shown.
pub open spec fn banner_text(root: Seq<char>) -> Seq<char> {
    "Working on "@ + root
}

/// Puts the line for one detected project together from the cleaner's name, the
/// path as it is to be shown, and the size as it is to be shown.
pub fn compose_finding(cleaner: &str, path: &str, size: &str) -> (r: String)
    ensures
        r@ == finding_text(cleaner@, path@, size@),
{
    let mut line = String::from_str("Found a ");
    line.append(cleaner);
    line.append(" project in ");
    line.append(path);
    line.append(", can save ");
    line.append(size);
    line
}

/// Puts the closing line together from the total as it is to be shown: space "to be
/// saved" after a dry run, space "saved" after a live one.
pub fn compose_summary(total: &str, dry_run: bool) -> (r: String)
    ensures
        r@ == summary_text(total@, dry_run),
{
    let mut line = if dry_run {
        String::from_str("Total space to be saved: ")
    } else {
        String::from_str("Total space saved: ")
    };
    line.append(total);
    line
}

/// The line that reports a project of kind `cleaner` found at `path`, with `size`
/// bytes to reclaim. The path is taken as it is to be shown.
pub fn finding_line(cleaner: &str, path: &str, size: u64) -> (r: String)
    ensures
        r@ == finding_text(cleaner@, path@, human_size(size)),
{
    let shown_size = size_text(size);
    compose_finding(cleaner, path, shown_size.as_str())
}

/// The line that closes a scan in which `total` bytes were found.
pub fn summary_line(total: u64, dry_run: bool) -> (r: String)
    ensures
        r@ == summary_text(human_size(total), dry_run),
{
    let shown = size_text(total);
    compose_summary(shown.as_str(), dry_run)
}

/// The line that opens a scan of the workspace at `root`, taken as it is to be
/// shown.
pub fn banner_line(root: &str) -> (r: String)
    ensures
        r@ == banner_text(root@),
{
    let mut line = String::from_str("Working on ");
    line.append(root);
    line
}

} // verus!
