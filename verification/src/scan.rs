//! The scan of a workspace: which entries are inspected, which cleaners are asked in
//! which order, what is found and how much it adds up to.

use vstd::prelude::*;
use vstd::string::StringExecFns;
use crate::cleaner::{find_marker, has_marker, CleanAction, Cleaner, NodeCleaner, RustCleaner};
use crate::entry::{candidate, is_candidate, DirectoryEntry};
use crate::tree::{capped, Node};

verus! {

/// The cleaners that a scan asks, in the order in which it asks them.
#[derive(Clone, Copy, Debug, PartialEq, Eq, Structural)]
pub enum CleanerKind {
    Rust,
    Node,
}

impl Cleaner for CleanerKind {
    open spec fn label(&self) -> Seq<char> {
        match self {
            CleanerKind::Rust => (RustCleaner {  }).label(),
            CleanerKind::Node => (NodeCleaner {  }).label(),
        }
    }

    open spec fn detects(&self, entry: DirectoryEntry) -> Option<u64> {
        match self {
            CleanerKind::Rust => (RustCleaner {  }).detects(entry),
            CleanerKind::Node => (NodeCleaner {  }).detects(entry),
        }
    }

    open spec fn reclaims(&self, entry: DirectoryEntry) -> CleanAction {
        match self {
            CleanerKind::Rust => (RustCleaner {  }).reclaims(entry),
            CleanerKind::Node => (NodeCleaner {  }).reclaims(entry),
        }
    }

    fn cleanable(&self, entry: &DirectoryEntry) -> (r: Option<u64>) {
        match self {
            CleanerKind::Rust => (RustCleaner {  }).cleanable(entry),
            CleanerKind::Node => (NodeCleaner {  }).cleanable(entry),
        }
    }

    fn clean(&self, entry: &DirectoryEntry) -> (r: CleanAction) {
        match self {
            CleanerKind::Rust => (RustCleaner {  }).clean(entry),
            CleanerKind::Node => (NodeCleaner {  }).clean(entry),
        }
    }

    fn name(&self) -> (r: &'static str) {
        match self {
            CleanerKind::Rust => (RustCleaner {  }).name(),
            CleanerKind::Node => (NodeCleaner {  }).name(),
        }
    }
}

/// Whether some cleaner needs the directory `name` of an entry walked, given what is
/// listed directly inside the entry: it is the artifact directory of a cleaner whose
/// marker is there as a regular file.
pub open spec fn wanted(listing: Seq<Node>, name: Seq<char>) -> bool {
    ||| name == "target"@ && has_marker(listing, "Cargo.toml"@)
    ||| name == "node_modules"@ && has_marker(listing, "package-lock.json"@)
}

/// Tells whether the directory `name` of an entry is worth walking. A directory
/// that is not can stay unvisited: no cleaner looks below it.
pub fn wants_walk(listing: &Vec<Node>, name: &str) -> (r: bool)
    ensures
        r == wanted(listing@, name@),
{
    let asked = String::from_str(name);
    let target = String::from_str("target");
    let node_modules = String::from_str("node_modules");
    if asked == target && find_marker(listing, "Cargo.toml") {
        true
    } else {
        asked == node_modules && find_marker(listing, "package-lock.json")
    }
}

/// A cleaner detects something only in an entry whose listing makes its artifact
/// directory wanted: leaving the directories that are not wanted unvisited takes
/// nothing from what a scan finds.
pub proof fn lemma_detection_reads_wanted_only(entry: DirectoryEntry, kind: CleanerKind)
    requires
        kind.detects(entry) is Some,
    ensures
        entry.children is Some,
        kind == CleanerKind::Rust ==> wanted(entry.children->0@, "target"@),
        kind == CleanerKind::Node ==> wanted(entry.children->0@, "node_modules"@),
{
}

/// One detected project: where, of which kind, how many bytes, and what to do.
#[derive(Clone, Debug, PartialEq, Eq)]
pub struct Finding {
    /// The position of the entry in the list that was scanned.
    pub entry: usize,
    /// The path of the entry, as reports show it.
    pub path: String,
    /// The cleaner that detected the project.
    pub cleaner: CleanerKind,
    /// The bytes that cleaning would reclaim.
    pub size: u64,
    /// The action to carry out; `None` in a dry run.
    pub action: Option<CleanAction>,
}

/// What a scan found, in the order in which it was found, and the bytes in all.
#[derive(Clone, Debug, PartialEq, Eq)]
pub struct Report {
    pub findings: Vec<Finding>,
    pub total: u64,
}

/// Why a scan gave no report.
#[derive(Clone, Copy, Debug, PartialEq, Eq, Structural)]
pub enum ScanError {
    /// The bytes found do not fit in a `u64` when added up.
    TotalTooLarge,
}

/// What one cleaner contributes for one entry: a finding where it detects a
/// project, with the action unless the run is dry.
pub open spec fn found(
    entry: DirectoryEntry,
    index: usize,
    kind: CleanerKind,
    dry_run: bool,
) -> Seq<Finding> {
    match kind.detects(entry) {
        Some(size) => seq![
            Finding {
                entry: index,
                path: entry.path,
                cleaner: kind,
                size,
                action: if dry_run {
                    None
                } else {
                    Some(kind.reclaims(entry))
                },
            },
        ],
        None => Seq::empty(),
    }
}

/// What a scan finds in one entry: nothing unless it is a candidate, else what the
/// Rust cleaner contributes and then what the Node cleaner contributes.
pub open spec fn entry_findings(entry: DirectoryEntry, index: usize, dry_run: bool) -> Seq<Finding> {
    if candidate(entry) {
        found(entry, index, CleanerKind::Rust, dry_run) + found(
            entry,
            index,
            CleanerKind::Node,
            dry_run,
        )
    } else {
        Seq::empty()
    }
}

/// What a scan finds in a list of entries, entry by entry in their order.
pub open spec fn findings(entries: Seq<DirectoryEntry>, dry_run: bool) -> Seq<Finding>
    decreases entries.len(),
{
    if entries.len() == 0 {
        Seq::empty()
    } else {
        findings(entries.drop_last(), dry_run) + entry_findings(
            entries.last(),
            (entries.len() - 1) as usize,
            dry_run,
        )
    }
}

/// The bytes of all findings together.
pub open spec fn total_bytes(found: Seq<Finding>) -> nat
    decreases found.len(),
{
    if found.len() == 0 {
        0
    } else {
        total_bytes(found.drop_last()) + found.last().size as nat
    }
}

/// Whether a finding stands for a detection among `entries`: it points at a
/// candidate, its cleaner detects exactly its size there, and it carries the action
/// of that cleaner unless the run is dry.
pub open spec fn stands_for_detection(
    entries: Seq<DirectoryEntry>,
    dry_run: bool,
    finding: Finding,
) -> bool {
    &&& finding.entry < entries.len()
    &&& candidate(entries[finding.entry as int])
    &&& finding.cleaner.detects(entries[finding.entry as int]) == Some(finding.size)
    &&& finding.path == entries[finding.entry as int].path
    &&& finding.action == if dry_run {
        None
    } else {
        Some(finding.cleaner.reclaims(entries[finding.entry as int]))
    }
}

/// Every finding of a scan stands for a detection. In particular a dry run plans no
/// action, and a live run plans one for every finding.
pub proof fn lemma_findings_are_detections(entries: Seq<DirectoryEntry>, dry_run: bool)
    requires
        entries.len() <= usize::MAX,
    ensures
        forall|k: int|
            0 <= k < findings(entries, dry_run).len() ==> stands_for_detection(
                entries,
                dry_run,
                #[trigger] findings(entries, dry_run)[k],
            ),
    decreases entries.len(),
{
    if entries.len() > 0 {
        let front = entries.drop_last();
        let earlier = findings(front, dry_run);
        lemma_findings_are_detections(front, dry_run);
        assert forall|k: int| 0 <= k < findings(entries, dry_run).len() implies stands_for_detection(
            entries,
            dry_run,
            #[trigger] findings(entries, dry_run)[k],
        ) by {
            if k < earlier.len() {
                assert(stands_for_detection(front, dry_run, earlier[k]));
            }
        }
    }
}

/// Nothing is missed: what a cleaner detects in a candidate is among the findings.
pub proof fn lemma_detections_are_found(
    entries: Seq<DirectoryEntry>,
    dry_run: bool,
    i: int,
    kind: CleanerKind,
)
    requires
        entries.len() <= usize::MAX,
        0 <= i < entries.len(),
        candidate(entries[i]),
        kind.detects(entries[i]) is Some,
    ensures
        exists|k: int|
            0 <= k < findings(entries, dry_run).len() && (#[trigger] findings(
                entries,
                dry_run,
            )[k]).entry == i && findings(entries, dry_run)[k].cleaner == kind,
    decreases entries.len(),
{
    let front = entries.drop_last();
    let earlier = findings(front, dry_run);
    let all = findings(entries, dry_run);
    if i < entries.len() - 1 {
        lemma_detections_are_found(front, dry_run, i, kind);
        let k = choose|k: int|
            0 <= k < earlier.len() && (#[trigger] earlier[k]).entry == i && earlier[k].cleaner
                == kind;
        assert(all[k] == earlier[k]);
    } else {
        let index = (entries.len() - 1) as usize;
        let rust = found(entries.last(), index, CleanerKind::Rust, dry_run);
        let node = found(entries.last(), index, CleanerKind::Node, dry_run);
        match kind {
            CleanerKind::Rust => {
                let k = earlier.len() as int;
                assert(all[k] == rust[0]);
            },
            CleanerKind::Node => {
                let k = (earlier.len() + rust.len()) as int;
                assert(all[k] == node[0]);
            },
        }
    }
}

/// Asks one cleaner about one entry.
pub fn inspect(kind: CleanerKind, entry: &DirectoryEntry, index: usize, dry_run: bool) -> (r:
    Option<Finding>)
    ensures
        found(*entry, index, kind, dry_run) == match r {
            Some(finding) => seq![finding],
            None => Seq::<Finding>::empty(),
        },
{
    match kind.cleanable(entry) {
        Some(size) => {
            let action = if dry_run {
                None
            } else {
                Some(kind.clean(entry))
            };
            Some(Finding { entry: index, path: entry.path.clone(), cleaner: kind, size, action })
        },
        None => None,
    }
}

/// Adds what one cleaner contributed to the findings so far and to their total,
/// which is `None` once it no longer fits in a `u64`.
fn record(out: &mut Vec<Finding>, acc: &mut Option<u64>, contributed: Option<Finding>)
    requires
        *old(acc) == capped(total_bytes(old(out)@)),
    ensures
        final(out)@ == old(out)@ + match contributed {
            Some(finding) => seq![finding],
            None => Seq::<Finding>::empty(),
        },
        *final(acc) == capped(total_bytes(final(out)@)),
{
    match contributed {
        Some(finding) => {
            *acc = match *acc {
                Some(total) => total.checked_add(finding.size),
                None => None,
            };
            proof {
                let after = old(out)@.push(finding);
                assert(after.drop_last() == old(out)@);
            }
            out.push(finding);
        },
        None => {},
    }
}

/// Scans a workspace: every candidate among `entries`, in order, is shown to the
/// Rust cleaner and then to the Node cleaner. Each detection becomes a finding, with
/// the action that reclaims it unless the run is dry, and its bytes count towards
/// the total. The scan only looks: nothing in `entries` changes.
pub fn scan(entries: &Vec<DirectoryEntry>, dry_run: bool) -> (r: Result<Report, ScanError>)
    ensures
        match r {
            Ok(report) => {
                &&& report.findings@ == findings(entries@, dry_run)
                &&& report.total == total_bytes(report.findings@)
                &&& forall|k: int|
                    0 <= k < report.findings@.len() ==> stands_for_detection(
                        entries@,
                        dry_run,
                        #[trigger] report.findings@[k],
                    )
            },
            Err(ScanError::TotalTooLarge) => total_bytes(findings(entries@, dry_run)) > u64::MAX,
        },
{
    let mut out: Vec<Finding> = Vec::new();
    let mut acc: Option<u64> = Some(0);
    let mut i: usize = 0;
    while i < entries.len()
        invariant
            i <= entries.len(),
            out@ == findings(entries@.take(i as int), dry_run),
            acc == capped(total_bytes(out@)),
        decreases entries.len() - i,
    {
        proof {
            let next = entries@.take(i + 1);
            assert(next.drop_last() == entries@.take(i as int));
        }
        let entry = &entries[i];
        if is_candidate(entry) {
            let rust = inspect(CleanerKind::Rust, entry, i, dry_run);
            record(&mut out, &mut acc, rust);
            let node = inspect(CleanerKind::Node, entry, i, dry_run);
            record(&mut out, &mut acc, node);
        }
        i = i + 1;
    }
    proof {
        assert(entries@.take(i as int) == entries@);
        lemma_findings_are_detections(entries@, dry_run);
    }
    match acc {
        Some(total) => Ok(Report { findings: out, total }),
        None => Err(ScanError::TotalTooLarge),
    }
}

} // verus!
