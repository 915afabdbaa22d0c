use vstd::prelude::*;

verus! {

/// Identifier of an object (commit or tree) in the object store.
#[derive(Debug, Clone, Copy)]
pub struct ObjectId {
    pub bytes: [u8; 20],
}

impl ObjectId {
    /// Whether two identifiers name the same object.
    pub fn same_as(&self, other: &ObjectId) -> (r: bool)
        ensures
            r == (*self == *other),
    {
        let mut i: usize = 0;
        while i < 20
            invariant
                0 <= i <= 20,
                forall|j: int| 0 <= j < i ==> self.bytes[j] == other.bytes[j],
            decreases 20 - i,
        {
            if self.bytes[i] != other.bytes[i] {
                return false;
            }
            i = i + 1;
        }
        proof {
            broadcast use vstd::array::axiom_array_ext_equal;

            assert(self.bytes =~= other.bytes);
        }
        true
    }
}

/// Name of the remote that is fetched from and pushed to.
pub open spec fn remote_name_text() -> Seq<char> {
    "origin"@
}

/// The local branch reference of `branch`.
pub open spec fn head_ref_text(branch: Seq<char>) -> Seq<char> {
    "refs/heads/"@ + branch
}

/// The reference that tracks `branch` of the remote.
pub open spec fn tracking_ref_text(branch: Seq<char>) -> Seq<char> {
    "refs/remotes/origin/"@ + branch
}

/// The name of the remote used for fetch and push.
pub fn remote_name() -> (r: String)
    ensures
        r@ == remote_name_text(),
{
    String::from_str("origin")
}

/// `refs/heads/<branch>`: the reference that is pushed.
pub fn head_ref_name(branch: &str) -> (r: String)
    ensures
        r@ == head_ref_text(branch@),
{
    let mut r = String::from_str("refs/heads/");
    r.append(branch);
    r
}

/// `refs/remotes/origin/<branch>`: the reference that a fetch updates.
pub fn tracking_ref_name(branch: &str) -> (r: String)
    ensures
        r@ == tracking_ref_text(branch@),
{
    let mut r = String::from_str("refs/remotes/origin/");
    r.append(branch);
    r
}

} // verus!
