//! Detection of build-artifact caches and the action that reclaims them, one cleaner
//! for each kind of project.

use vstd::prelude::*;
use vstd::string::StringExecFns;
use crate::entry::DirectoryEntry;
use crate::tree::{dir_size, listing_size, Node, SizeError};

verus! {

/// The name of an entry, where it could be read.
pub open spec fn node_name(node: Node) -> Option<Seq<char>> {
    match node {
        Node::Unreadable { .. } => None,
        Node::File { name, .. } => Some(name@),
        Node::Other { name, .. } => Some(name@),
        Node::Dir { name, .. } => Some(name@),
        Node::ClosedDir { name, .. } => Some(name@),
        Node::Unvisited { name } => Some(name@),
    }
}

/// Whether an entry is a regular file with the given name.
pub open spec fn is_file_named(node: Node, name: Seq<char>) -> bool {
    node is File && node_name(node) == Some(name)
}

/// Whether a listing holds a regular file with the given name.
pub open spec fn has_marker(listing: Seq<Node>, marker: Seq<char>) -> bool {
    exists|i: int| 0 <= i < listing.len() && is_file_named(#[trigger] listing[i], marker)
}

/// The first entry of a listing that carries the given name.
pub open spec fn first_named(listing: Seq<Node>, name: Seq<char>) -> Option<Node>
    decreases listing.len(),
{
    if listing.len() == 0 {
        None
    } else {
        match first_named(listing.drop_last(), name) {
            Some(node) => Some(node),
            None => if node_name(listing.last()) == Some(name) {
                Some(listing.last())
            } else {
                None
            },
        }
    }
}

/// The bytes that can be reclaimed under the entry named `artifact` of a listing: the
/// size of that directory, where it is one, was walked, and its size can be given.
pub open spec fn artifact_size(listing: Seq<Node>, artifact: Seq<char>) -> Option<u64> {
    match first_named(listing, artifact) {
        Some(Node::Dir { children, .. }) => match listing_size(children@) {
            Ok(bytes) => Some(bytes),
            Err(_) => None,
        },
        _ => None,
    }
}

/// What detection gives for an entry: the size of the artifact directory, if the
/// entry could be listed, holds the marker as a regular file, and the size of the
/// artifact directory can be given.
pub open spec fn detect(
    entry: DirectoryEntry,
    marker: Seq<char>,
    artifact: Seq<char>,
) -> Option<u64> {
    match entry.children {
        Some(children) => if has_marker(children@, marker) {
            artifact_size(children@, artifact)
        } else {
            None
        },
        None => None,
    }
}

/// Looks for the marker among the entries of a listing.
pub fn find_marker(listing: &Vec<Node>, marker: &str) -> (r: bool)
    ensures
        r == has_marker(listing@, marker@),
{
    let wanted = String::from_str(marker);
    let mut i: usize = 0;
    while i < listing.len()
        invariant
            i <= listing.len(),
            wanted@ == marker@,
            forall|j: int| 0 <= j < i ==> !is_file_named(#[trigger] listing@[j], marker@),
        decreases listing.len() - i,
    {
        match &listing[i] {
            Node::File { name, .. } => {
                if *name == wanted {
                    return true;
                }
            },
            _ => {},
        }
        i = i + 1;
    }
    false
}

/// An entry found among the first `k` entries of a listing is the one found in the
/// whole of it.
pub proof fn lemma_first_named_stays(listing: Seq<Node>, name: Seq<char>, k: int)
    requires
        0 <= k <= listing.len(),
        first_named(listing.take(k), name) is Some,
    ensures
        first_named(listing, name) == first_named(listing.take(k), name),
    decreases listing.len() - k,
{
    if k < listing.len() {
        let next = listing.take(k + 1);
        assert(next.drop_last() == listing.take(k));
        lemma_first_named_stays(listing, name, k + 1);
    } else {
        assert(listing.take(k) == listing);
    }
}

/// Whether an entry carries the given name.
fn is_named(node: &Node, wanted: &String) -> (r: bool)
    ensures
        r == (node_name(*node) == Some(wanted@)),
{
    match node {
        Node::Unreadable { .. } => false,
        Node::File { name, .. } => *name == *wanted,
        Node::Other { name, .. } => *name == *wanted,
        Node::Dir { name, .. } => *name == *wanted,
        Node::ClosedDir { name, .. } => *name == *wanted,
        Node::Unvisited { name } => *name == *wanted,
    }
}

/// Finds the first entry of a listing that carries the given name.
pub fn find_named<'a>(listing: &'a Vec<Node>, name: &str) -> (r: Option<&'a Node>)
    ensures
        match r {
            Some(node) => first_named(listing@, name@) == Some(*node),
            None => first_named(listing@, name@) is None,
        },
{
    let wanted = String::from_str(name);
    let mut i: usize = 0;
    while i < listing.len()
        invariant
            i <= listing.len(),
            wanted@ == name@,
            first_named(listing@.take(i as int), name@) is None,
        decreases listing.len() - i,
    {
        proof {
            let next = listing@.take(i + 1);
            assert(next.drop_last() == listing@.take(i as int));
        }
        if is_named(&listing[i], &wanted) {
            proof {
                lemma_first_named_stays(listing@, name@, i + 1);
            }
            return Some(&listing[i]);
        }
        i = i + 1;
    }
    proof {
        assert(listing@.take(i as int) == listing@);
    }
    None
}

/// Detects a project in an entry: looks for `filename` as a regular file directly
/// inside it and, where it is found, gives the size of the directory `directory_name`
/// beside it. Whatever cannot be read counts as nothing found.
pub fn simple_detect(entry: &DirectoryEntry, filename: &str, directory_name: &str) -> (r:
    Option<u64>)
    ensures
        r == detect(*entry, filename@, directory_name@),
{
    match &entry.children {
        Some(children) => {
            if find_marker(children, filename) {
                match find_named(children, directory_name) {
                    Some(Node::Dir { children: below, .. }) => match dir_size(below) {
                        Ok(bytes) => Some(bytes),
                        Err(_) => None,
                    },
                    _ => None,
                }
            } else {
                None
            }
        },
        None => None,
    }
}

/// How the artifacts of a detected project are reclaimed. The library decides the
/// action; carrying it out is left to the caller.
#[derive(Clone, Copy, Debug, PartialEq, Eq)]
pub enum CleanAction {
    /// Start `program` with the one argument `argument` in the directory of the
    /// entry, without waiting for it to finish and without looking at how it ends.
    Launch { program: &'static str, argument: &'static str },
    /// Delete the directory `name` directly inside the entry, with all that is below
    /// it.
    RemoveTree { name: &'static str },
}

/// A kind of project whose build artifacts can be found and reclaimed.
pub trait Cleaner {
    /// The name by which reports call this kind of project.
    spec fn label(&self) -> Seq<char>;

    /// What detection gives for an entry.
    spec fn detects(&self, entry: DirectoryEntry) -> Option<u64>;

    /// The action that reclaims the artifacts of an entry.
    spec fn reclaims(&self, entry: DirectoryEntry) -> CleanAction;

    /// The bytes that cleaning the entry would reclaim, or `None` where the entry is
    /// no project of this kind or could not be inspected. Looks, and changes nothing.
    fn cleanable(&self, entry: &DirectoryEntry) -> (r: Option<u64>)
        ensures
            r == self.detects(*entry),
    ;

    /// The action that reclaims the artifacts of an entry in which `cleanable` found
    /// a project.
    fn clean(&self, entry: &DirectoryEntry) -> (r: CleanAction)
        requires
            self.detects(*entry) is Some,
        ensures
            r == self.reclaims(*entry),
    ;

    /// The name by which reports call this kind of project.
    fn name(&self) -> (r: &'static str)
        ensures
            r@ == self.label(),
    ;
}

/// Projects built by Cargo: marked by `Cargo.toml`, with their artifacts in `target`.
#[derive(Clone, Copy, Debug)]
pub struct RustCleaner {}

impl Cleaner for RustCleaner {
    open spec fn label(&self) -> Seq<char> {
        "Rust"@
    }

    open spec fn detects(&self, entry: DirectoryEntry) -> Option<u64> {
        detect(entry, "Cargo.toml"@, "target"@)
    }

    open spec fn reclaims(&self, entry: DirectoryEntry) -> CleanAction {
        CleanAction::Launch { program: "cargo", argument: "clean" }
    }

    fn cleanable(&self, entry: &DirectoryEntry) -> (r: Option<u64>) {
        simple_detect(entry, "Cargo.toml", "target")
    }

    fn clean(&self, entry: &DirectoryEntry) -> (r: CleanAction) {
        CleanAction::Launch { program: "cargo", argument: "clean" }
    }

    fn name(&self) -> (r: &'static str) {
        "Rust"
    }
}

/// Projects of the Node ecosystem: marked by `package-lock.json`, with their
/// dependencies in `node_modules`. There is no tool to ask, so the directory itself
/// is deleted.
#[derive(Clone, Copy, Debug)]
pub struct NodeCleaner {}

impl Cleaner for NodeCleaner {
    open spec fn label(&self) -> Seq<char> {
        "nodeJS"@
    }

    open spec fn detects(&self, entry: DirectoryEntry) -> Option<u64> {
        detect(entry, "package-lock.json"@, "node_modules"@)
    }

    open spec fn reclaims(&self, entry: DirectoryEntry) -> CleanAction {
        CleanAction::RemoveTree { name: "node_modules" }
    }

    fn name(&self) -> (r: &'static str) {
        "nodeJS"
    }

    fn cleanable(&self, entry: &DirectoryEntry) -> (r: Option<u64>) {
        simple_detect(entry, "package-lock.json", "node_modules")
    }

    fn clean(&self, entry: &DirectoryEntry) -> (r: CleanAction) {
        CleanAction::RemoveTree { name: "node_modules" }
    }
}

/// Whether an entry lacks the regular file `marker`: it could not be listed, or no
/// regular file of that name is directly inside it.
pub open spec fn lacks_file(entry: DirectoryEntry, marker: Seq<char>) -> bool {
    match entry.children {
        Some(children) => !has_marker(children@, marker),
        None => true,
    }
}

/// Whether an entry lacks the directory `artifact`: it could not be listed, or no
/// directory of that name is directly inside it.
pub open spec fn lacks_dir(entry: DirectoryEntry, artifact: Seq<char>) -> bool {
    match entry.children {
        Some(children) => forall|i: int|
            0 <= i < children@.len() ==> !((#[trigger] children@[i]) is Dir && node_name(
                children@[i],
            ) == Some(artifact)),
        None => true,
    }
}

/// What `first_named` finds is an entry of the listing and carries the name.
pub proof fn lemma_first_named_is_entry(listing: Seq<Node>, name: Seq<char>)
    ensures
        first_named(listing, name) matches Some(node) ==> node_name(node) == Some(name)
            && exists|i: int| 0 <= i < listing.len() && #[trigger] listing[i] == node,
    decreases listing.len(),
{
    if listing.len() > 0 {
        let front = listing.drop_last();
        lemma_first_named_is_entry(front, name);
    }
}

/// A listing in which no entry carries the name gives nothing for it.
pub proof fn lemma_first_named_none(listing: Seq<Node>, name: Seq<char>)
    requires
        forall|j: int| 0 <= j < listing.len() ==> node_name(#[trigger] listing[j]) != Some(name),
    ensures
        first_named(listing, name) is None,
    decreases listing.len(),
{
    if listing.len() > 0 {
        lemma_first_named_none(listing.drop_last(), name);
    }
}

/// The entry at `i` is the one found for its name if no entry before it carries
/// that name.
pub proof fn lemma_first_named_at(listing: Seq<Node>, name: Seq<char>, i: int)
    requires
        0 <= i < listing.len(),
        node_name(listing[i]) == Some(name),
        forall|j: int| 0 <= j < i ==> node_name(#[trigger] listing[j]) != Some(name),
    ensures
        first_named(listing, name) == Some(listing[i]),
{
    lemma_first_named_none(listing.take(i), name);
    assert(listing.take(i + 1).drop_last() == listing.take(i));
    lemma_first_named_stays(listing, name, i + 1);
}

/// An entry that lacks the marker file or the artifact directory is never
/// cleanable, whatever the two names are.
pub proof fn lemma_nothing_without_marker_and_artifact(
    entry: DirectoryEntry,
    marker: Seq<char>,
    artifact: Seq<char>,
)
    requires
        lacks_file(entry, marker) || lacks_dir(entry, artifact),
    ensures
        detect(entry, marker, artifact) is None,
{
    if let Some(children) = entry.children {
        if has_marker(children@, marker) {
            lemma_first_named_is_entry(children@, artifact);
        }
    }
}

/// Neither cleaner finds anything in an entry that lacks its marker file or its
/// artifact directory. A directory that carries the marker's name is no marker.
pub proof fn lemma_cleaners_need_marker_and_artifact(entry: DirectoryEntry)
    ensures
        lacks_file(entry, "Cargo.toml"@) || lacks_dir(entry, "target"@)
            ==> (RustCleaner {  }).detects(entry) is None,
        lacks_file(entry, "package-lock.json"@) || lacks_dir(entry, "node_modules"@)
            ==> (NodeCleaner {  }).detects(entry) is None,
{
    if lacks_file(entry, "Cargo.toml"@) || lacks_dir(entry, "target"@) {
        lemma_nothing_without_marker_and_artifact(entry, "Cargo.toml"@, "target"@);
    }
    if lacks_file(entry, "package-lock.json"@) || lacks_dir(entry, "node_modules"@) {
        lemma_nothing_without_marker_and_artifact(entry, "package-lock.json"@, "node_modules"@);
    }
}

/// In an entry that holds the marker as a regular file and, at `i`, the first entry
/// named as the artifact directory, a directory, detection gives what the size
/// accounting gives for that directory: its size, or nothing where the accounting
/// fails.
pub proof fn lemma_detects_size_of_artifact(
    entry: DirectoryEntry,
    marker: Seq<char>,
    artifact: Seq<char>,
    i: int,
)
    requires
        entry.children is Some,
        has_marker(entry.children->0@, marker),
        0 <= i < entry.children->0@.len(),
        entry.children->0@[i] is Dir,
        node_name(entry.children->0@[i]) == Some(artifact),
        forall|j: int|
            0 <= j < i ==> node_name(#[trigger] entry.children->0@[j]) != Some(artifact),
    ensures
        detect(entry, marker, artifact) == match listing_size(
            entry.children->0@[i]->Dir_children@,
        ) {
            Ok(bytes) => Some(bytes),
            Err(_) => None::<u64>,
        },
{
    lemma_first_named_at(entry.children->0@, artifact, i);
}

/// The Rust cleaner reports the size of `target` wherever `Cargo.toml` is a regular
/// file of the entry, `target` is a directory of it, and the size of `target` can be
/// given.
pub proof fn lemma_rust_project_is_cleanable(entry: DirectoryEntry, i: int, size: u64)
    requires
        entry.children is Some,
        has_marker(entry.children->0@, "Cargo.toml"@),
        0 <= i < entry.children->0@.len(),
        entry.children->0@[i] is Dir,
        node_name(entry.children->0@[i]) == Some("target"@),
        forall|j: int|
            0 <= j < i ==> node_name(#[trigger] entry.children->0@[j]) != Some("target"@),
        listing_size(entry.children->0@[i]->Dir_children@) == Ok::<u64, SizeError>(size),
    ensures
        (RustCleaner {  }).detects(entry) == Some(size),
{
    lemma_detects_size_of_artifact(entry, "Cargo.toml"@, "target"@, i);
}

/// Detection looks and changes nothing: two results that `cleanable` gives for one
/// entry are the same.
pub proof fn lemma_detection_repeats<C: Cleaner>(
    cleaner: C,
    entry: DirectoryEntry,
    first: Option<u64>,
    second: Option<u64>,
)
    requires
        first == cleaner.detects(entry),
        second == cleaner.detects(entry),
    ensures
        first == second,
{
}

} // verus!
