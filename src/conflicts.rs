use vstd::prelude::*;
use vstd::utf8::{decode_utf8, valid_utf8};

verus! {

/// One conflict of the staging area after a merge, as the caller read it:
/// the path bytes of its "theirs" entry, when that entry is present.
#[derive(Debug)]
pub struct ConflictEntry {
    pub their_path: Option<Vec<u8>>,
}

/// Stands for a conflict whose "theirs" entry is missing.
pub open spec fn missing_entry_text() -> Seq<char> {
    "<error_no_conflict>"@
}

/// Stands for a conflict whose path bytes are not valid UTF-8.
pub open spec fn invalid_path_text() -> Seq<char> {
    "<conflict_invalid_path>"@
}

/// The path reported for a conflict whose "theirs" path bytes are `their`.
pub open spec fn conflict_path_text(their: Option<Seq<u8>>) -> Seq<char> {
    match their {
        None => missing_entry_text(),
        Some(b) => if valid_utf8(b) {
            decode_utf8(b)
        } else {
            invalid_path_text()
        },
    }
}

/// The path bytes of an entry, as a sequence.
pub open spec fn their_bytes(e: ConflictEntry) -> Option<Seq<u8>> {
    match e.their_path {
        None => None,
        Some(v) => Some(v@),
    }
}

/// The paths reported for a list of conflicts, one per conflict, in order.
pub open spec fn conflict_paths_text(entries: Seq<ConflictEntry>) -> Seq<Seq<char>> {
    entries.map_values(|e: ConflictEntry| conflict_path_text(their_bytes(e)))
}

/// Relies on String::from_utf8: it succeeds exactly on valid UTF-8 and then
/// holds the decoded characters.
#[verifier::external_body]
fn text_of_bytes(b: Vec<u8>) -> (r: Option<String>)
    ensures
        r is Some <==> valid_utf8(b@),
        r matches Some(s) ==> s@ == decode_utf8(b@),
{
    String::from_utf8(b).ok()
}

/// The path to report for one conflict.
pub fn conflict_path(entry: &ConflictEntry) -> (r: String)
    ensures
        r@ == conflict_path_text(their_bytes(*entry)),
{
    match &entry.their_path {
        None => String::from_str("<error_no_conflict>"),
        Some(b) => match text_of_bytes(b.clone()) {
            Some(s) => s,
            None => String::from_str("<conflict_invalid_path>"),
        },
    }
}

/// The paths to report for all conflicts, one per conflict, in order.
pub fn conflict_paths(entries: &Vec<ConflictEntry>) -> (r: Vec<String>)
    ensures
        r@.len() == entries@.len(),
        forall|i: int|
            0 <= i < r@.len() ==> #[trigger] r@[i]@ == conflict_paths_text(entries@)[i],
{
    let mut r: Vec<String> = Vec::new();
    let mut i: usize = 0;
    while i < entries.len()
        invariant
            i <= entries@.len(),
            r@.len() == i,
            forall|j: int|
                0 <= j < i ==> #[trigger] r@[j]@ == conflict_paths_text(entries@)[j],
        decreases entries@.len() - i,
    {
        let p = conflict_path(&entries[i]);
        r.push(p);
        i = i + 1;
    }
    r
}

} // verus!
