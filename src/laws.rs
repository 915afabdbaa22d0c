use vstd::prelude::*;
use crate::attempt::{
    committed_step, done_step, failed_step, fetched_step, is_commit_of, is_fetch_of, merge_message,
    merged_step, merged_tree_step, working_tree_step, Action, Attempt, Failure, Outcome, Stage,
};
use crate::conflicts::{conflict_paths_text, ConflictEntry};
use crate::refs::ObjectId;
use crate::schedule::{advance, finish_step, Scheduler};

verus! {

/// With no local changes (the staged tree is the head's tree), the snapshot
/// creates no commit, moves no branch, and the attempt goes on to fetch.
pub proof fn lemma_clean_tree_commits_nothing(
    old: Attempt,
    head: ObjectId,
    tree: ObjectId,
    new: Attempt,
    a: Action,
)
    requires
        old.stage == Stage::Inspect,
        working_tree_step(old, Some(head), tree, tree, new, a),
    ensures
        is_fetch_of(a, old.branch@),
        new.stage == Stage::Fetch,
        new.changed == old.changed,
{
}

/// Committing a snapshot and then inspecting the unchanged working tree again,
/// now that the head is the new commit, creates no second commit.
pub proof fn lemma_snapshot_round_trip(
    a0: Attempt,
    head: ObjectId,
    head_tree: ObjectId,
    staged_tree: ObjectId,
    a1: Attempt,
    act1: Action,
    b0: Attempt,
    new_head: ObjectId,
    b1: Attempt,
    act2: Action,
)
    requires
        a0.stage == Stage::Inspect,
        working_tree_step(a0, Some(head), head_tree, staged_tree, a1, act1),
        act1 is Commit,
        b0.stage == Stage::Inspect,
        working_tree_step(b0, Some(new_head), act1->tree, staged_tree, b1, act2),
    ensures
        act1->tree == staged_tree,
        act1->parents@ == seq![head],
        !(act2 is Commit),
        is_fetch_of(act2, b0.branch@),
        b1.changed == b0.changed,
{
}

/// When the local head is a strict ancestor of the fetched head, the branch is
/// moved to exactly the fetched commit, directly or through the fallback, and
/// no commit is created.
pub proof fn lemma_fast_forward_moves_branch(
    old: Attempt,
    local_head: ObjectId,
    local_tree: ObjectId,
    remote_head: ObjectId,
    normal: bool,
    mid: Attempt,
    a: Action,
    f: Failure,
    retry: Attempt,
    b: Action,
)
    requires
        old.stage == Stage::Fetch,
        fetched_step(old, local_head, local_tree, remote_head, false, true, normal, mid, a),
        failed_step(mid, f, retry, b),
    ensures
        a == (Action::MoveBranch { target: remote_head }),
        b == (Action::RecreateBranch { target: remote_head }),
        mid.stage == Stage::FastForward,
        retry.stage == Stage::FastForwardFallback,
        forall|n: Attempt, c: Action| #[trigger] done_step(mid, n, c) ==> !(c is Commit) && n.changed,
        forall|n: Attempt, c: Action| #[trigger] done_step(retry, n, c) ==> !(c is Commit) && n.changed,
{
}

/// For diverged histories whose merge leaves no conflict and changes the tree,
/// the merge commit has exactly two parents: the prior local head and the
/// fetched head, and the message `merge`.
pub proof fn lemma_merge_commit_parents(
    old: Attempt,
    local_head: ObjectId,
    local_tree: ObjectId,
    remote_head: ObjectId,
    s1: Attempt,
    a1: Action,
    s2: Attempt,
    a2: Action,
    tree: ObjectId,
    s3: Attempt,
    a3: Action,
)
    requires
        old.stage == Stage::Fetch,
        fetched_step(old, local_head, local_tree, remote_head, false, false, true, s1, a1),
        merged_step(s1, Seq::<ConflictEntry>::empty(), s2, a2),
        merged_tree_step(s2, tree, s3, a3),
        tree != local_tree,
    ensures
        a1 == (Action::Merge { theirs: remote_head }),
        a2 == Action::WriteMergedTree,
        is_commit_of(a3, seq![local_head, remote_head], tree, merge_message()),
{
}

/// A merge that leaves conflicts ends the attempt, reporting one path per
/// conflict of the staging area, in order, and asks for no commit; a commit
/// reported afterwards is refused.
pub proof fn lemma_conflicts_reported(
    old: Attempt,
    conflicts: Seq<ConflictEntry>,
    new: Attempt,
    a: Action,
)
    requires
        old.stage == Stage::Merge,
        conflicts.len() > 0,
        merged_step(old, conflicts, new, a),
    ensures
        new.stage == Stage::Finished,
        a matches Action::Finish(Outcome::ConflictsDetected(paths)) && paths@.len()
            == conflicts.len() && forall|i: int|
            0 <= i < conflicts.len() ==> #[trigger] paths@[i]@ == conflict_paths_text(conflicts)[i],
        forall|n: Attempt, c: Action| #[trigger]
            committed_step(new, n, c) ==> c == Action::Finish(Outcome::Error(Failure::OutOfOrder)),
{
    if let Action::Finish(Outcome::ConflictsDetected(paths)) = a {
        assert(conflict_paths_text(conflicts).len() == conflicts.len());
        assert(paths@.map_values(|p: String| p@).len() == paths@.len());
        assert forall|i: int| 0 <= i < conflicts.len() implies #[trigger] paths@[i]@
            == conflict_paths_text(conflicts)[i] by {
            assert(paths@.map_values(|p: String| p@)[i] == paths@[i]@);
        }
    }
}

/// An attempt that misses its deadline is reported as timed out, and the next
/// attempt stays due one interval after the previous due time, exactly as if
/// the attempt had completed.
pub proof fn lemma_timeout_keeps_schedule(
    old: Scheduler,
    late: Scheduler,
    r: Outcome,
    done: Option<Outcome>,
    other: Scheduler,
    r2: Outcome,
)
    requires
        old.spec_running(),
        finish_step(old, None, late, r),
        finish_step(old, done, other, r2),
    ensures
        r == Outcome::TimedOut,
        late.spec_next_due_ms() == advance(old.spec_next_due_ms(), old.spec_interval_ms()),
        late.spec_next_due_ms() == other.spec_next_due_ms(),
        !late.spec_running(),
{
}

} // verus!
