use vstd::prelude::*;
use crate::conflicts::{conflict_paths, conflict_paths_text, ConflictEntry};
use crate::refs::{
    head_ref_name, head_ref_text, remote_name, remote_name_text, tracking_ref_name,
    tracking_ref_text, ObjectId,
};

verus! {

/// How the fetched remote head relates to the local head.
#[derive(Debug, Clone, Copy, PartialEq, Eq, Structural)]
pub enum Classification {
    /// The remote head is already contained in local history.
    UpToDate,
    /// The local head is a strict ancestor of the remote head.
    FastForward,
    /// The histories have diverged.
    Normal,
    /// None of the above was reported.
    Unknown,
}

/// The classification from the flags of a merge analysis; earlier flags win.
pub open spec fn classification_of(up_to_date: bool, fast_forward: bool, normal: bool) -> Classification {
    if up_to_date {
        Classification::UpToDate
    } else if fast_forward {
        Classification::FastForward
    } else if normal {
        Classification::Normal
    } else {
        Classification::Unknown
    }
}

/// Classifies a merge analysis from its flags.
pub fn classify(up_to_date: bool, fast_forward: bool, normal: bool) -> (r: Classification)
    ensures
        r == classification_of(up_to_date, fast_forward, normal),
{
    if up_to_date {
        Classification::UpToDate
    } else if fast_forward {
        Classification::FastForward
    } else if normal {
        Classification::Normal
    } else {
        Classification::Unknown
    }
}

/// Why an attempt ended without success.
#[derive(Debug)]
pub enum Failure {
    /// The repository has no commit that its head resolves to.
    NoHead,
    /// Reading or writing objects, the index or a reference failed.
    ObjectStore(String),
    /// No credential was accepted by the remote.
    AuthExhausted(String),
    /// Fetch or push failed on the network or in the protocol.
    Network(String),
    /// The merge analysis matched no known case.
    UnknownClassification,
    /// The remote refused a pushed reference: its name and the status given.
    PushRejected(String, String),
    /// An observation arrived that the attempt was not waiting for.
    OutOfOrder,
}

/// The result of one scheduled attempt.
#[derive(Debug)]
pub enum Outcome {
    /// Something was committed or integrated, and the branch was published.
    Success,
    /// Nothing changed locally or from the remote; the branch was published.
    NoChanges,
    /// The merge left these conflicting paths; nothing was committed.
    ConflictsDetected(Vec<String>),
    /// The attempt was aborted.
    Error(Failure),
    /// The attempt did not finish before its deadline.
    TimedOut,
}

/// What one pushed reference was answered: `status` is present when refused.
#[derive(Debug)]
pub struct RefUpdate {
    pub name: String,
    pub status: Option<String>,
}

/// The next thing the caller is to do with the repository.
#[derive(Debug)]
pub enum Action {
    /// Stage every path of the working tree, write the staged tree, and report
    /// the head, the head's tree and the staged tree.
    InspectWorkingTree,
    /// Create a commit with these parents, tree and message, and advance the
    /// current branch to it.
    Commit { parents: Vec<ObjectId>, tree: ObjectId, message: String },
    /// Fetch `branch` from `remote`, updating `tracking_ref`, then report the
    /// local head, its tree, the tracking head and the merge analysis.
    Fetch { remote: String, branch: String, tracking_ref: String },
    /// Check out `target` and set the current branch to it.
    MoveBranch { target: ObjectId },
    /// Create or re-point the branch at `target` from the remote's commit.
    RecreateBranch { target: ObjectId },
    /// Merge `theirs` into the working tree and index; report the conflicts.
    Merge { theirs: ObjectId },
    /// Write the merged index as a tree and report it.
    WriteMergedTree,
    /// Clear the repository's in-progress merge state.
    CleanupMergeState,
    /// Push `reference` to `remote` and report each updated reference.
    Push { remote: String, reference: String },
    /// The attempt is over.
    Finish(Outcome),
}

/// Where an attempt stands: which report it waits for.
#[derive(Debug, Clone, Copy, PartialEq, Eq, Structural)]
pub enum Stage {
    /// Waits for the inspection of the working tree.
    Inspect,
    /// Waits for the snapshot commit.
    SnapshotCommit,
    /// Waits for the fetch and its merge analysis.
    Fetch,
    /// Waits for the branch move to the fetched head.
    FastForward,
    /// Waits for the branch to be re-pointed from the remote's commit.
    FastForwardFallback,
    /// Waits for the merge and its conflicts.
    Merge,
    /// Waits for the merged tree.
    MergedTree,
    /// Waits for the merge commit.
    MergeCommit,
    /// Waits for the merge state to be cleared.
    Cleanup,
    /// Waits for the push and the remote's answers.
    Publish,
    /// The attempt is over.
    Finished,
}

/// One synchronisation attempt: snapshot, integrate, publish.
pub struct Attempt {
    /// The branch being synchronised.
    pub branch: String,
    pub stage: Stage,
    /// Whether a snapshot or an integration has changed local history.
    pub changed: bool,
    /// The local head before integration, and its tree.
    pub local_head: ObjectId,
    pub local_tree: ObjectId,
    /// The fetched remote head.
    pub remote_head: ObjectId,
}

/// `a` moved to stage `s`, all else kept.
pub open spec fn with_stage(a: Attempt, s: Stage) -> Attempt {
    Attempt { stage: s, ..a }
}

/// `a` asks to fetch `branch` from the remote into its tracking reference.
pub open spec fn is_fetch_of(a: Action, branch: Seq<char>) -> bool {
    a matches Action::Fetch { remote, branch: b, tracking_ref } && remote@ == remote_name_text()
        && b@ == branch && tracking_ref@ == tracking_ref_text(branch)
}

/// `a` asks to push the local reference of `branch` to the remote.
pub open spec fn is_push_of(a: Action, branch: Seq<char>) -> bool {
    a matches Action::Push { remote, reference } && remote@ == remote_name_text() && reference@
        == head_ref_text(branch)
}

/// `a` asks for a commit with exactly these parents, tree and message.
pub open spec fn is_commit_of(
    a: Action,
    parents: Seq<ObjectId>,
    tree: ObjectId,
    message: Seq<char>,
) -> bool {
    a matches Action::Commit { parents: p, tree: t, message: m } && p@ == parents && t == tree
        && m@ == message
}

/// The attempt ends with failure `f`.
pub open spec fn ends_with(old: Attempt, new: Attempt, a: Action, f: Failure) -> bool {
    new == with_stage(old, Stage::Finished) && a == Action::Finish(Outcome::Error(f))
}

/// Message of a snapshot commit.
pub open spec fn snapshot_message() -> Seq<char> {
    "sync"@
}

/// Message of a merge commit.
pub open spec fn merge_message() -> Seq<char> {
    "merge"@
}

/// The working tree was inspected: `head` (absent when there is no commit),
/// the head's tree and the staged tree.
pub open spec fn working_tree_step(
    old: Attempt,
    head: Option<ObjectId>,
    head_tree: ObjectId,
    staged_tree: ObjectId,
    new: Attempt,
    a: Action,
) -> bool {
    if old.stage != Stage::Inspect {
        ends_with(old, new, a, Failure::OutOfOrder)
    } else {
        match head {
            None => ends_with(old, new, a, Failure::NoHead),
            Some(h) => if staged_tree == head_tree {
                new == with_stage(old, Stage::Fetch) && is_fetch_of(a, old.branch@)
            } else {
                new == with_stage(old, Stage::SnapshotCommit) && is_commit_of(
                    a,
                    seq![h],
                    staged_tree,
                    snapshot_message(),
                )
            },
        }
    }
}

/// The commit that was asked for has been made.
pub open spec fn committed_step(old: Attempt, new: Attempt, a: Action) -> bool {
    match old.stage {
        Stage::SnapshotCommit => new == Attempt { stage: Stage::Fetch, changed: true, ..old }
            && is_fetch_of(a, old.branch@),
        Stage::MergeCommit => new == Attempt { stage: Stage::Cleanup, changed: true, ..old } && a
            == Action::CleanupMergeState,
        _ => ends_with(old, new, a, Failure::OutOfOrder),
    }
}

/// The fetch completed: the local head and its tree, the tracking head, and the
/// flags of the merge analysis between them.
pub open spec fn fetched_step(
    old: Attempt,
    local_head: ObjectId,
    local_tree: ObjectId,
    remote_head: ObjectId,
    up_to_date: bool,
    fast_forward: bool,
    normal: bool,
    new: Attempt,
    a: Action,
) -> bool {
    if old.stage != Stage::Fetch {
        ends_with(old, new, a, Failure::OutOfOrder)
    } else {
        match classification_of(up_to_date, fast_forward, normal) {
            Classification::UpToDate => new == with_stage(old, Stage::Publish) && is_push_of(
                a,
                old.branch@,
            ),
            Classification::FastForward => new == Attempt {
                stage: Stage::FastForward,
                remote_head,
                ..old
            } && a == Action::MoveBranch { target: remote_head },
            Classification::Normal => new == Attempt {
                stage: Stage::Merge,
                local_head,
                local_tree,
                remote_head,
                ..old
            } && a == Action::Merge { theirs: remote_head },
            Classification::Unknown => ends_with(old, new, a, Failure::UnknownClassification),
        }
    }
}

/// The branch move, the fallback, or the merge-state cleanup that was asked
/// for has been done.
pub open spec fn done_step(old: Attempt, new: Attempt, a: Action) -> bool {
    match old.stage {
        Stage::FastForward | Stage::FastForwardFallback => new == Attempt {
            stage: Stage::Publish,
            changed: true,
            ..old
        } && is_push_of(a, old.branch@),
        Stage::Cleanup => new == with_stage(old, Stage::Publish) && is_push_of(a, old.branch@),
        _ => ends_with(old, new, a, Failure::OutOfOrder),
    }
}

/// The last action failed with `f`. Only a failed branch move is retried, by
/// re-pointing the branch from the remote's commit.
pub open spec fn failed_step(old: Attempt, f: Failure, new: Attempt, a: Action) -> bool {
    if old.stage == Stage::FastForward {
        new == with_stage(old, Stage::FastForwardFallback) && a == Action::RecreateBranch {
            target: old.remote_head,
        }
    } else {
        ends_with(old, new, a, f)
    }
}

/// The merge was applied and left `conflicts` in the staging area.
pub open spec fn merged_step(
    old: Attempt,
    conflicts: Seq<ConflictEntry>,
    new: Attempt,
    a: Action,
) -> bool {
    if old.stage != Stage::Merge {
        ends_with(old, new, a, Failure::OutOfOrder)
    } else if conflicts.len() > 0 {
        new == with_stage(old, Stage::Finished) && (a matches Action::Finish(
            Outcome::ConflictsDetected(paths),
        ) && paths@.map_values(|p: String| p@) == conflict_paths_text(conflicts))
    } else {
        new == with_stage(old, Stage::MergedTree) && a == Action::WriteMergedTree
    }
}

/// The merged index was written as `tree`.
pub open spec fn merged_tree_step(old: Attempt, tree: ObjectId, new: Attempt, a: Action) -> bool {
    if old.stage != Stage::MergedTree {
        ends_with(old, new, a, Failure::OutOfOrder)
    } else if tree == old.local_tree {
        new == with_stage(old, Stage::Publish) && is_push_of(a, old.branch@)
    } else {
        new == with_stage(old, Stage::MergeCommit) && is_commit_of(
            a,
            seq![old.local_head, old.remote_head],
            tree,
            merge_message(),
        )
    }
}

/// The remote refused this reference.
pub open spec fn is_refused(u: RefUpdate) -> bool {
    u.status is Some
}

/// `updates[i]` is the first refused update.
pub open spec fn first_refused(updates: Seq<RefUpdate>, i: int) -> bool {
    0 <= i < updates.len() && is_refused(updates[i]) && forall|j: int|
        0 <= j < i ==> !is_refused(#[trigger] updates[j])
}

/// The push completed and the remote answered `updates`.
pub open spec fn pushed_step(old: Attempt, updates: Seq<RefUpdate>, new: Attempt, a: Action) -> bool {
    if old.stage != Stage::Publish {
        ends_with(old, new, a, Failure::OutOfOrder)
    } else if exists|i: int| 0 <= i < updates.len() && is_refused(#[trigger] updates[i]) {
        new == with_stage(old, Stage::Finished) && (a matches Action::Finish(
            Outcome::Error(Failure::PushRejected(name, status)),
        ) && exists|i: int|
            #[trigger] first_refused(updates, i) && updates[i].name@ == name@ && updates[i].status
                == Some(status))
    } else {
        new == with_stage(old, Stage::Finished) && a == Action::Finish(
            if old.changed {
                Outcome::Success
            } else {
                Outcome::NoChanges
            },
        )
    }
}

impl Attempt {
    /// A fresh attempt on `branch`, and its first action.
    pub fn start(branch: String) -> (r: (Attempt, Action))
        ensures
            r.0.branch == branch,
            r.0.stage == Stage::Inspect,
            !r.0.changed,
            r.1 == Action::InspectWorkingTree,
    {
        let zero = ObjectId { bytes: [0u8; 20] };
        let a = Attempt {
            branch,
            stage: Stage::Inspect,
            changed: false,
            local_head: zero,
            local_tree: zero,
            remote_head: zero,
        };
        (a, Action::InspectWorkingTree)
    }

    fn fetch_action(&self) -> (r: Action)
        ensures
            is_fetch_of(r, self.branch@),
    {
        Action::Fetch {
            remote: remote_name(),
            branch: self.branch.clone(),
            tracking_ref: tracking_ref_name(self.branch.as_str()),
        }
    }

    fn push_action(&self) -> (r: Action)
        ensures
            is_push_of(r, self.branch@),
    {
        Action::Push { remote: remote_name(), reference: head_ref_name(self.branch.as_str()) }
    }

    fn end(&mut self, f: Failure) -> (r: Action)
        ensures
            ends_with(*old(self), *final(self), r, f),
    {
        self.stage = Stage::Finished;
        Action::Finish(Outcome::Error(f))
    }

    /// Snapshot: commit the staged tree unless it equals the head's tree.
    pub fn on_working_tree(
        &mut self,
        head: Option<ObjectId>,
        head_tree: ObjectId,
        staged_tree: ObjectId,
    ) -> (r: Action)
        ensures
            working_tree_step(*old(self), head, head_tree, staged_tree, *final(self), r),
    {
        if self.stage != Stage::Inspect {
            return self.end(Failure::OutOfOrder);
        }
        match head {
            None => self.end(Failure::NoHead),
            Some(h) => {
                if staged_tree.same_as(&head_tree) {
                    self.stage = Stage::Fetch;
                    self.fetch_action()
                } else {
                    self.stage = Stage::SnapshotCommit;
                    let parents = vec![h];
                    let message = String::from_str("sync");
                    assert(parents@ == seq![h]);
                    assert(message@ == snapshot_message());
                    Action::Commit { parents, tree: staged_tree, message }
                }
            },
        }
    }

    /// The requested commit was created and the branch advanced to it.
    pub fn on_committed(&mut self) -> (r: Action)
        ensures
            committed_step(*old(self), *final(self), r),
    {
        match self.stage {
            Stage::SnapshotCommit => {
                self.stage = Stage::Fetch;
                self.changed = true;
                self.fetch_action()
            },
            Stage::MergeCommit => {
                self.stage = Stage::Cleanup;
                self.changed = true;
                Action::CleanupMergeState
            },
            _ => self.end(Failure::OutOfOrder),
        }
    }

    /// Integration: decide from the merge analysis of the fetched head.
    pub fn on_fetched(
        &mut self,
        local_head: ObjectId,
        local_tree: ObjectId,
        remote_head: ObjectId,
        up_to_date: bool,
        fast_forward: bool,
        normal: bool,
    ) -> (r: Action)
        ensures
            fetched_step(
                *old(self),
                local_head,
                local_tree,
                remote_head,
                up_to_date,
                fast_forward,
                normal,
                *final(self),
                r,
            ),
    {
        if self.stage != Stage::Fetch {
            return self.end(Failure::OutOfOrder);
        }
        match classify(up_to_date, fast_forward, normal) {
            Classification::UpToDate => {
                self.stage = Stage::Publish;
                self.push_action()
            },
            Classification::FastForward => {
                self.stage = Stage::FastForward;
                self.remote_head = remote_head;
                Action::MoveBranch { target: remote_head }
            },
            Classification::Normal => {
                self.stage = Stage::Merge;
                self.local_head = local_head;
                self.local_tree = local_tree;
                self.remote_head = remote_head;
                Action::Merge { theirs: remote_head }
            },
            Classification::Unknown => self.end(Failure::UnknownClassification),
        }
    }

    /// The branch move, its fallback, or the merge-state cleanup succeeded.
    pub fn on_done(&mut self) -> (r: Action)
        ensures
            done_step(*old(self), *final(self), r),
    {
        match self.stage {
            Stage::FastForward | Stage::FastForwardFallback => {
                self.stage = Stage::Publish;
                self.changed = true;
                self.push_action()
            },
            Stage::Cleanup => {
                self.stage = Stage::Publish;
                self.push_action()
            },
            _ => self.end(Failure::OutOfOrder),
        }
    }

    /// The last action failed with `f`.
    pub fn on_failed(&mut self, f: Failure) -> (r: Action)
        ensures
            failed_step(*old(self), f, *final(self), r),
    {
        if self.stage == Stage::FastForward {
            self.stage = Stage::FastForwardFallback;
            Action::RecreateBranch { target: self.remote_head }
        } else {
            self.end(f)
        }
    }

    /// The merge was applied; `conflicts` are those of the staging area.
    pub fn on_merged(&mut self, conflicts: &Vec<ConflictEntry>) -> (r: Action)
        ensures
            merged_step(*old(self), conflicts@, *final(self), r),
    {
        if self.stage != Stage::Merge {
            return self.end(Failure::OutOfOrder);
        }
        if conflicts.len() > 0 {
            let paths = conflict_paths(conflicts);
            self.stage = Stage::Finished;
            assert(paths@.map_values(|p: String| p@) =~= conflict_paths_text(conflicts@));
            Action::Finish(Outcome::ConflictsDetected(paths))
        } else {
            self.stage = Stage::MergedTree;
            Action::WriteMergedTree
        }
    }

    /// The merged index was written as `tree`.
    pub fn on_merged_tree(&mut self, tree: ObjectId) -> (r: Action)
        ensures
            merged_tree_step(*old(self), tree, *final(self), r),
    {
        if self.stage != Stage::MergedTree {
            return self.end(Failure::OutOfOrder);
        }
        if tree.same_as(&self.local_tree) {
            self.stage = Stage::Publish;
            self.push_action()
        } else {
            self.stage = Stage::MergeCommit;
            let parents = vec![self.local_head, self.remote_head];
            Action::Commit { parents, tree, message: String::from_str("merge") }
        }
    }

    /// Publishing: the remote answered `updates`.
    pub fn on_pushed(&mut self, updates: &Vec<RefUpdate>) -> (r: Action)
        ensures
            pushed_step(*old(self), updates@, *final(self), r),
    {
        if self.stage != Stage::Publish {
            return self.end(Failure::OutOfOrder);
        }
        self.stage = Stage::Finished;
        let mut i: usize = 0;
        while i < updates.len()
            invariant
                i <= updates@.len(),
                old(self).stage == Stage::Publish,
                *self == with_stage(*old(self), Stage::Finished),
                forall|j: int| 0 <= j < i ==> !is_refused(#[trigger] updates@[j]),
            decreases updates@.len() - i,
        {
            match &updates[i].status {
                Some(status) => {
                    let name = updates[i].name.clone();
                    let status = status.clone();
                    assert(first_refused(updates@, i as int));
                    return Action::Finish(Outcome::Error(Failure::PushRejected(name, status)));
                },
                None => {},
            }
            i = i + 1;
        }
        if self.changed {
            Action::Finish(Outcome::Success)
        } else {
            Action::Finish(Outcome::NoChanges)
        }
    }
}

} // verus!
