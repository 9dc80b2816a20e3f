//! A snapshot of a directory tree and the accounting of the bytes under it.

use vstd::prelude::*;

verus! {

/// Why something on disk could not be read: the code the operating system gave.
#[derive(Clone, Copy, Debug, PartialEq, Eq, Structural)]
pub struct ReadFailure {
    pub code: i32,
}

/// One entry of a directory listing, as it was seen when the snapshot was taken.
#[derive(Debug, PartialEq, Eq)]
pub enum Node {
    /// An entry that, or whose metadata, could not be read.
    Unreadable { failure: ReadFailure },
    /// A regular file of `len` bytes.
    File { name: String, len: u64 },
    /// Neither a regular file nor a directory (a device, a socket, a pipe), of `len` bytes.
    Other { name: String, len: u64 },
    /// A directory and the entries listed in it, in listing order.
    Dir { name: String, children: Vec<Node> },
    /// A directory whose entries could not be listed.
    ClosedDir { name: String, failure: ReadFailure },
    /// A directory that was seen and not walked: what lies below it is unknown.
    Unvisited { name: String },
}

/// The bytes of all files below a node, as a mathematical integer.
pub open spec fn node_bytes(node: Node) -> nat
    decreases node,
{
    match node {
        Node::Unreadable { .. } => 0,
        Node::File { len, .. } => len as nat,
        Node::Other { len, .. } => len as nat,
        Node::Dir { children, .. } => listing_bytes(children@),
        Node::ClosedDir { .. } => 0,
        Node::Unvisited { .. } => 0,
    }
}

/// The bytes of all files below the entries of a listing.
pub open spec fn listing_bytes(listing: Seq<Node>) -> nat
    decreases listing,
{
    if listing.len() == 0 {
        0
    } else {
        listing_bytes(listing.drop_last()) + node_bytes(listing.last())
    }
}

/// Why the size of a directory could not be given.
#[derive(Clone, Copy, Debug, PartialEq, Eq, Structural)]
pub enum SizeError {
    /// Something below the directory could not be read.
    Unreadable(ReadFailure),
    /// A directory below was not walked.
    Unvisited,
    /// Everything is known, but the bytes do not fit in a `u64`.
    TooLarge,
}

/// The first thing that leaves the bytes below a node unknown, met when the node is
/// walked, its entries in listing order and each directory before what follows it.
pub open spec fn node_failure(node: Node) -> Option<SizeError>
    decreases node,
{
    match node {
        Node::Unreadable { failure } => Some(SizeError::Unreadable(failure)),
        Node::File { .. } => None,
        Node::Other { .. } => None,
        Node::Dir { children, .. } => listing_failure(children@),
        Node::ClosedDir { failure, .. } => Some(SizeError::Unreadable(failure)),
        Node::Unvisited { .. } => Some(SizeError::Unvisited),
    }
}

/// The first thing that leaves the bytes below a listing unknown, met when its
/// entries are walked in order.
pub open spec fn listing_failure(listing: Seq<Node>) -> Option<SizeError>
    decreases listing,
{
    if listing.len() == 0 {
        None
    } else {
        match listing_failure(listing.drop_last()) {
            Some(failure) => Some(failure),
            None => node_failure(listing.last()),
        }
    }
}

/// A byte count as a `u64`, where it fits.
pub open spec fn capped(bytes: nat) -> Option<u64> {
    if bytes <= u64::MAX {
        Some(bytes as u64)
    } else {
        None
    }
}

/// What the size accounting of a listing gives: the first failure if there is one,
/// else the exact sum of the file lengths below it, if that fits in a `u64`. A
/// failure is never `TooLarge`: that is given only where everything is known.
pub open spec fn listing_size(listing: Seq<Node>) -> Result<u64, SizeError> {
    match listing_failure(listing) {
        Some(failure) => Err(failure),
        None => match capped(listing_bytes(listing)) {
            Some(bytes) => Ok(bytes),
            None => Err(SizeError::TooLarge),
        },
    }
}

/// Walks a listing and adds up the file lengths, keeping track of a sum too large
/// for a `u64` so that a failure further on is still found.
fn walk(listing: &Vec<Node>) -> (r: Result<Option<u64>, SizeError>)
    ensures
        r == match listing_failure(listing@) {
            Some(failure) => Err::<Option<u64>, SizeError>(failure),
            None => Ok(capped(listing_bytes(listing@))),
        },
    decreases listing,
{
    let mut acc: Option<u64> = Some(0);
    let mut i: usize = 0;
    while i < listing.len()
        invariant
            i <= listing.len(),
            listing_failure(listing@.take(i as int)) is None,
            acc == capped(listing_bytes(listing@.take(i as int))),
        decreases listing.len() - i,
    {
        proof {
            let next = listing@.take(i + 1);
            assert(next.drop_last() == listing@.take(i as int));
            assert(listing_failure(next) == node_failure(listing@[i as int]));
            assert(listing_bytes(next) == listing_bytes(listing@.take(i as int)) + node_bytes(
                listing@[i as int],
            ));
        }
        let below: Option<u64> = match &listing[i] {
            Node::Unreadable { failure } => {
                proof {
                    lemma_failure_stays(listing@, i + 1);
                }
                return Err(SizeError::Unreadable(*failure));
            },
            Node::File { len, .. } => Some(*len),
            Node::Other { len, .. } => Some(*len),
            Node::Dir { children, .. } => {
                match walk(children) {
                    Ok(bytes) => bytes,
                    Err(failure) => {
                        proof {
                            lemma_failure_stays(listing@, i + 1);
                        }
                        return Err(failure);
                    },
                }
            },
            Node::ClosedDir { failure, .. } => {
                proof {
                    lemma_failure_stays(listing@, i + 1);
                }
                return Err(SizeError::Unreadable(*failure));
            },
            Node::Unvisited { .. } => {
                proof {
                    lemma_failure_stays(listing@, i + 1);
                }
                return Err(SizeError::Unvisited);
            },
        };
        acc = match (acc, below) {
            (Some(a), Some(b)) => a.checked_add(b),
            _ => None,
        };
        i = i + 1;
    }
    proof {
        assert(listing@.take(i as int) == listing@);
    }
    Ok(acc)
}

/// A failure among the first `k` entries of a listing is the failure of the whole.
pub proof fn lemma_failure_stays(listing: Seq<Node>, k: int)
    requires
        0 <= k <= listing.len(),
        listing_failure(listing.take(k)) is Some,
    ensures
        listing_failure(listing) == listing_failure(listing.take(k)),
    decreases listing.len() - k,
{
    if k < listing.len() {
        let next = listing.take(k + 1);
        assert(next.drop_last() == listing.take(k));
        lemma_failure_stays(listing, k + 1);
    } else {
        assert(listing.take(k) == listing);
    }
}

/// Where everything below a directory was walked and could be read, its size is the exact sum of the
/// lengths of the files below it, nested directories included, as long as that sum
/// fits in a `u64`.
pub proof fn lemma_size_is_sum_of_lengths(listing: Seq<Node>)
    requires
        listing_failure(listing) is None,
        listing_bytes(listing) <= u64::MAX,
    ensures
        listing_size(listing) == Ok::<u64, SizeError>(listing_bytes(listing) as u64),
{
}

/// The bytes under a directory whose entries are `listing`: the sum of the lengths of
/// all files below it, directories within directories included. The first failure in
/// walking order, an entry that could not be read or a directory that was not
/// walked, is returned in place of any sum.
pub fn dir_size(listing: &Vec<Node>) -> (r: Result<u64, SizeError>)
    ensures
        r == listing_size(listing@),
{
    match walk(listing) {
        Err(failure) => Err(failure),
        Ok(Some(bytes)) => Ok(bytes),
        Ok(None) => Err(SizeError::TooLarge),
    }
}

} // verus!
