//! The repository model the synchronization subsystem is verified
//! against.
//!
//! A [`SyncState`] holds one content-addressed object store shared by the
//! local repository and its `origin` remote (fetching therefore never
//! copies objects, it only makes the remote tip visible), the two `main`
//! branch tips, the local working tree, and the configured remote URL.
//! Commits form single-parent chains: this workflow never creates a merge
//! commit. Over this model the committer, the publisher and the
//! fast-forward-only synchronizer are verified, and the laws of the
//! subsystem (commit chaining, fast-forward behaviour, divergence
//! rejection, pull idempotence) are stated and proved.

use vstd::prelude::*;

use crate::error::SyncError;

verus! {

/// One commit object: an immutable history node holding a content
/// snapshot and at most one parent.
pub struct Commit {
    /// Index of the sole parent in the object store; absent for a root
    /// commit.
    pub parent: Option<usize>,
    /// Identifier of the tree snapshot this commit captures.
    pub tree: u64,
    /// The free-text commit message.
    pub message: String,
}

/// The outcome of comparing the local branch tip with a fetched tip.
#[derive(Clone, Copy, Debug, PartialEq, Eq, Structural)]
pub enum MergeAnalysis {
    /// The fetched tip is already reachable from the local tip.
    UpToDate,
    /// The local tip is an ancestor of the fetched tip (or the local
    /// branch does not exist yet): the ref may simply advance.
    FastForward,
    /// Each side has a commit the other lacks: only a content merge could
    /// reconcile them, which this subsystem never attempts.
    Diverged,
}

/// What a pull applies once the fetched tip has been analyzed: the three
/// outcomes of the synchronizer's state machine.
#[derive(Clone, Copy, Debug, PartialEq, Eq, Structural)]
pub enum PullAction {
    /// The local branch already holds the fetched tip: apply nothing.
    AlreadyCurrent,
    /// Advance the local `main` ref to the fetched commit, point HEAD at
    /// it and force-check-out its snapshot.
    Advance,
    /// Refuse the update: the histories diverged and only fast-forwards
    /// are applied.
    Reject,
}

/// Classifies a transport's two analysis flags — the fetched tip is
/// already in the local history; the local branch can fast-forward to it
/// — as a [`MergeAnalysis`]. Up-to-date takes precedence, and neither
/// flag means the histories diverged.
pub fn classify_analysis(up_to_date: bool, fast_forward: bool) -> (r: MergeAnalysis)
    ensures
        up_to_date ==> r == MergeAnalysis::UpToDate,
        (!up_to_date && fast_forward) ==> r == MergeAnalysis::FastForward,
        (!up_to_date && !fast_forward) ==> r == MergeAnalysis::Diverged,
{
    if up_to_date {
        MergeAnalysis::UpToDate
    } else if fast_forward {
        MergeAnalysis::FastForward
    } else {
        MergeAnalysis::Diverged
    }
}

/// The step a pull takes for each analysis: nothing when up-to-date, an
/// advance with a forced checkout on a fast-forward, a refusal on
/// divergence.
pub fn pull_action(analysis: MergeAnalysis) -> (r: PullAction)
    ensures
        analysis is UpToDate ==> r == PullAction::AlreadyCurrent,
        analysis is FastForward ==> r == PullAction::Advance,
        analysis is Diverged ==> r == PullAction::Reject,
{
    match analysis {
        MergeAnalysis::UpToDate => PullAction::AlreadyCurrent,
        MergeAnalysis::FastForward => PullAction::Advance,
        MergeAnalysis::Diverged => PullAction::Reject,
    }
}

/// Every commit's parent lies strictly earlier in the store, so parent
/// chains always terminate.
pub open spec fn store_wf(store: Seq<Commit>) -> bool {
    forall|i: int|
        0 <= i < store.len() ==> match (#[trigger] store[i]).parent {
            Some(p) => (p as int) < i,
            None => true,
        }
}

/// A branch tip, when present, points into the store.
pub open spec fn tip_wf(store: Seq<Commit>, tip: Option<usize>) -> bool {
    match tip {
        Some(t) => (t as int) < store.len(),
        None => true,
    }
}

/// Whether the commit at `anc` is reachable from the commit at `desc` by
/// following parent links (reflexively: every commit reaches itself).
pub open spec fn reaches(store: Seq<Commit>, anc: int, desc: int) -> bool
    decreases desc,
{
    anc == desc || match store[desc].parent {
        Some(p) => (p as int) < desc && 0 <= desc && reaches(store, anc, p as int),
        None => false,
    }
}

/// A plain (non-forced) push of `tip` is accepted exactly when the
/// remote branch is absent or its tip is already an ancestor of (or equal
/// to) `tip`.
pub open spec fn push_accepted(store: Seq<Commit>, remote: Option<usize>, tip: int) -> bool {
    match remote {
        None => true,
        Some(rm) => reaches(store, rm as int, tip),
    }
}

/// The classification a pull computes between the local tip and the
/// fetched remote tip.
pub open spec fn analysis_of(store: Seq<Commit>, local: Option<usize>, fetched: usize) -> MergeAnalysis {
    match local {
        None => MergeAnalysis::FastForward,
        Some(l) => if reaches(store, fetched as int, l as int) {
            MergeAnalysis::UpToDate
        } else if reaches(store, l as int, fetched as int) {
            MergeAnalysis::FastForward
        } else {
            MergeAnalysis::Diverged
        },
    }
}

/// The commit object the committer creates from the current branch tip,
/// the staged working tree and the message.
pub open spec fn next_commit(tip: Option<usize>, tree: u64, message: String) -> Commit {
    Commit { parent: tip, tree: tree, message: message }
}

/// The object store after the committer appends its new commit.
pub open spec fn commit_next_store(
    store: Seq<Commit>,
    tip: Option<usize>,
    tree: u64,
    message: String,
) -> Seq<Commit> {
    store.push(next_commit(tip, tree, message))
}

/// The branch tip after the committer appends its new commit to `store`.
pub open spec fn commit_next_tip(store: Seq<Commit>) -> Option<usize> {
    Some(store.len() as usize)
}

/// The local branch tip after a pull that fetched `fetched`.
pub open spec fn pull_next_local(store: Seq<Commit>, local: Option<usize>, fetched: usize) -> Option<
    usize,
> {
    match analysis_of(store, local, fetched) {
        MergeAnalysis::FastForward => Some(fetched),
        MergeAnalysis::UpToDate => local,
        MergeAnalysis::Diverged => local,
    }
}

/// The working tree after a pull that fetched `fetched`: a fast-forward
/// force-checks-out the fetched snapshot, everything else leaves the tree
/// alone.
pub open spec fn pull_next_tree(
    store: Seq<Commit>,
    local: Option<usize>,
    fetched: usize,
    tree: u64,
) -> u64 {
    match analysis_of(store, local, fetched) {
        MergeAnalysis::FastForward => store[fetched as int].tree,
        MergeAnalysis::UpToDate => tree,
        MergeAnalysis::Diverged => tree,
    }
}

/// Whether a pull that fetched `fetched` succeeds: everything but true
/// divergence does.
pub open spec fn pull_succeeds(store: Seq<Commit>, local: Option<usize>, fetched: usize) -> bool {
    !(analysis_of(store, local, fetched) is Diverged)
}

/// Appending a commit whose parent lies in the old store preserves
/// well-formedness.
proof fn lemma_store_wf_push(store: Seq<Commit>, c: Commit)
    requires
        store_wf(store),
        match c.parent {
            Some(p) => (p as int) < store.len(),
            None => true,
        },
    ensures
        store_wf(store.push(c)),
{
    let bigger = store.push(c);
    assert forall|i: int| 0 <= i < bigger.len() implies match (#[trigger] bigger[i]).parent {
        Some(p) => (p as int) < i,
        None => true,
    } by {
        if i < store.len() {
            assert(bigger[i] == store[i]);
        } else {
            assert(bigger[i] == c);
        }
    }
}

/// Reachability between commits of the old store is unaffected by
/// appending a commit.
pub(crate) proof fn lemma_reaches_push(store: Seq<Commit>, c: Commit, anc: int, desc: int)
    requires
        0 <= desc < store.len(),
    ensures
        reaches(store.push(c), anc, desc) == reaches(store, anc, desc),
    decreases desc,
{
    assert(store.push(c)[desc] == store[desc]);
    match store[desc].parent {
        Some(p) => {
            if (p as int) < desc {
                lemma_reaches_push(store, c, anc, p as int);
            }
        },
        None => {},
    }
}

/// The state one sync operation acts on: the shared object store, the two
/// `main` tips, the local working tree and the configured remote URL.
pub struct SyncState {
    /// The content-addressed object store, shared between the local
    /// repository and its remote.
    pub store: Vec<Commit>,
    /// The local `refs/heads/main` tip, absent until a commit exists.
    pub local_main: Option<usize>,
    /// The remote `refs/heads/main` tip, absent until a push lands.
    pub remote_main: Option<usize>,
    /// The snapshot the local working tree currently holds.
    pub work_tree: u64,
    /// The URL the `origin` remote points at, absent until configured.
    pub remote_url: Option<String>,
}

impl SyncState {
    /// The structural invariant: parents point backwards and both tips
    /// point into the store.
    pub open spec fn wf(&self) -> bool {
        &&& store_wf(self.store@)
        &&& tip_wf(self.store@, self.local_main)
        &&& tip_wf(self.store@, self.remote_main)
    }

    /// A path with no repository at all: empty store, no branch on either
    /// side, no remote configured, and the given working tree.
    pub fn new(work_tree: u64) -> (r: SyncState)
        ensures
            r.wf(),
            r.store@.len() == 0,
            r.local_main is None,
            r.remote_main is None,
            r.work_tree == work_tree,
            r.remote_url is None,
    {
        SyncState { store: Vec::new(), local_main: None, remote_main: None, work_tree, remote_url: None }
    }

    /// The working tree changed outside any sync operation (notes were
    /// edited): only the snapshot moves.
    pub fn set_working_tree(&mut self, tree: u64)
        ensures
            *final(self) == (SyncState { work_tree: tree, ..*old(self) }),
    {
        self.work_tree = tree;
    }

    /// Whether `anc` is reachable from `desc` along parent links.
    pub fn commit_reaches(store: &Vec<Commit>, anc: usize, desc: usize) -> (r: bool)
        requires
            store_wf(store@),
            (anc as int) < store@.len(),
            (desc as int) < store@.len(),
        ensures
            r == reaches(store@, anc as int, desc as int),
    {
        let mut cur: usize = desc;
        loop
            invariant
                store_wf(store@),
                (anc as int) < store@.len(),
                (cur as int) < store@.len(),
                reaches(store@, anc as int, desc as int) == reaches(store@, anc as int, cur as int),
            decreases cur,
        {
            if cur == anc {
                return true;
            }
            match store[cur].parent {
                Some(p) => {
                    assert((p as int) < cur as int);
                    assert(reaches(store@, anc as int, cur as int) == reaches(
                        store@,
                        anc as int,
                        p as int,
                    ));
                    cur = p;
                },
                None => {
                    assert(!reaches(store@, anc as int, cur as int));
                    return false;
                },
            }
        }
    }

    /// The merge analysis of the current local tip against a fetched tip.
    pub fn merge_analysis(&self, fetched: usize) -> (r: MergeAnalysis)
        requires
            self.wf(),
            (fetched as int) < self.store@.len(),
        ensures
            r == analysis_of(self.store@, self.local_main, fetched),
    {
        match self.local_main {
            None => MergeAnalysis::FastForward,
            Some(l) => {
                if Self::commit_reaches(&self.store, fetched, l) {
                    MergeAnalysis::UpToDate
                } else if Self::commit_reaches(&self.store, l, fetched) {
                    MergeAnalysis::FastForward
                } else {
                    MergeAnalysis::Diverged
                }
            },
        }
    }

    /// The working-tree committer: stage the whole working tree, write it
    /// as a snapshot, and commit it with the current branch tip (if any)
    /// as sole parent, advancing the branch to the new commit. Returns
    /// the new commit's position in the store.
    pub fn commit_all(&mut self, message: String) -> (r: usize)
        requires
            old(self).wf(),
        ensures
            final(self).wf(),
            final(self).store@ == commit_next_store(
                old(self).store@,
                old(self).local_main,
                old(self).work_tree,
                message,
            ),
            final(self).local_main == commit_next_tip(old(self).store@),
            final(self).local_main == Some(r),
            r as int == old(self).store@.len(),
            final(self).remote_main == old(self).remote_main,
            final(self).work_tree == old(self).work_tree,
            final(self).remote_url == old(self).remote_url,
    {
        let idx = self.store.len();
        let parent = self.local_main;
        let tree = self.work_tree;
        self.store.push(Commit { parent, tree, message });
        self.local_main = Some(idx);
        proof {
            lemma_store_wf_push(
                old(self).store@,
                next_commit(old(self).local_main, old(self).work_tree, message),
            );
        }
        idx
    }

    /// A commit created on the remote side (by another clone of the
    /// repository): it lands in the shared store with the remote tip as
    /// sole parent and advances the remote branch.
    pub fn remote_commit(&mut self, message: String, tree: u64) -> (r: usize)
        requires
            old(self).wf(),
        ensures
            final(self).wf(),
            final(self).store@ == commit_next_store(
                old(self).store@,
                old(self).remote_main,
                tree,
                message,
            ),
            final(self).remote_main == commit_next_tip(old(self).store@),
            final(self).remote_main == Some(r),
            r as int == old(self).store@.len(),
            final(self).local_main == old(self).local_main,
            final(self).work_tree == old(self).work_tree,
            final(self).remote_url == old(self).remote_url,
    {
        let idx = self.store.len();
        let parent = self.remote_main;
        self.store.push(Commit { parent, tree, message });
        self.remote_main = Some(idx);
        proof {
            lemma_store_wf_push(old(self).store@, next_commit(old(self).remote_main, tree, message));
        }
        idx
    }

    /// The remote publisher: a plain, non-forced push of the local `main`
    /// tip to the remote `main`. The remote accepts exactly when its tip
    /// is absent or already an ancestor of the pushed tip; a diverged
    /// remote rejects the push, and nothing changes.
    pub fn push_main(&mut self) -> (r: Result<(), SyncError>)
        requires
            old(self).wf(),
            old(self).local_main is Some,
        ensures
            final(self).wf(),
            final(self).store@ == old(self).store@,
            final(self).local_main == old(self).local_main,
            final(self).work_tree == old(self).work_tree,
            final(self).remote_url == old(self).remote_url,
            r is Ok <==> push_accepted(
                old(self).store@,
                old(self).remote_main,
                old(self).local_main->0 as int,
            ),
            r is Ok ==> final(self).remote_main == old(self).local_main,
            r is Err ==> final(self).remote_main == old(self).remote_main && r == Err::<
                (),
                SyncError,
            >(SyncError::PushFailure),
    {
        let tip = self.local_main.unwrap();
        let accepted = match self.remote_main {
            None => true,
            Some(rm) => Self::commit_reaches(&self.store, rm, tip),
        };
        if accepted {
            self.remote_main = Some(tip);
            Ok(())
        } else {
            Err(SyncError::PushFailure)
        }
    }

    /// The remote synchronizer's apply step, after a fetch has made the
    /// remote tip visible: a fast-forward (including an absent local
    /// branch) advances local `main` to the fetched tip and force-checks
    /// the working tree out to its snapshot; up-to-date changes nothing;
    /// divergence is rejected with `UnsupportedMerge` and changes
    /// nothing.
    pub fn pull_ff(&mut self) -> (r: Result<(), SyncError>)
        requires
            old(self).wf(),
            old(self).remote_main is Some,
        ensures
            final(self).wf(),
            final(self).store@ == old(self).store@,
            final(self).remote_main == old(self).remote_main,
            final(self).remote_url == old(self).remote_url,
            final(self).local_main == pull_next_local(
                old(self).store@,
                old(self).local_main,
                old(self).remote_main->0,
            ),
            final(self).work_tree == pull_next_tree(
                old(self).store@,
                old(self).local_main,
                old(self).remote_main->0,
                old(self).work_tree,
            ),
            r is Ok <==> pull_succeeds(old(self).store@, old(self).local_main, old(self).remote_main->0),
            r is Err ==> r == Err::<(), SyncError>(SyncError::UnsupportedMerge),
    {
        let fetched = self.remote_main.unwrap();
        let analysis = self.merge_analysis(fetched);
        match pull_action(analysis) {
            PullAction::Advance => {
                self.local_main = Some(fetched);
                self.work_tree = self.store[fetched].tree;
                Ok(())
            },
            PullAction::AlreadyCurrent => Ok(()),
            PullAction::Reject => Err(SyncError::UnsupportedMerge),
        }
    }
}

/// Committing twice produces two commits where the second's sole parent
/// is the first, whatever the two messages and snapshots are.
pub proof fn lemma_second_commit_parents_first(
    store: Seq<Commit>,
    tip: Option<usize>,
    tree1: u64,
    message1: String,
    tree2: u64,
    message2: String,
)
    requires
        store.len() + 1 < usize::MAX,
    ensures
        ({
            let store1 = commit_next_store(store, tip, tree1, message1);
            let tip1 = commit_next_tip(store);
            let store2 = commit_next_store(store1, tip1, tree2, message2);
            let tip2 = commit_next_tip(store1);
            &&& tip1 is Some
            &&& tip2 is Some
            &&& store2.len() == store.len() + 2
            &&& store2[tip2->0 as int].parent == tip1
            &&& store2[tip1->0 as int].parent == tip
            &&& store2[tip1->0 as int].message == message1
            &&& store2[tip2->0 as int].message == message2
        }),
{
}

/// A local branch strictly behind the fetched tip, with no commit of its
/// own that the remote lacks, fast-forwards: pull advances local `main`
/// to exactly the fetched tip and checks out that tip's snapshot.
pub proof fn lemma_pull_fast_forward(store: Seq<Commit>, local: usize, fetched: usize, tree: u64)
    requires
        store_wf(store),
        (fetched as int) < store.len(),
        (local as int) < store.len(),
        reaches(store, local as int, fetched as int),
        !reaches(store, fetched as int, local as int),
    ensures
        pull_next_local(store, Some(local), fetched) == Some(fetched),
        pull_next_tree(store, Some(local), fetched, tree) == store[fetched as int].tree,
        pull_succeeds(store, Some(local), fetched),
{
}

/// Truly diverged tips are rejected: when each side has a commit the
/// other lacks, pull reports the merge as unsupported and leaves both the
/// local branch and the working tree unchanged.
pub proof fn lemma_pull_divergence_rejected(
    store: Seq<Commit>,
    local: usize,
    fetched: usize,
    tree: u64,
)
    requires
        store_wf(store),
        (fetched as int) < store.len(),
        (local as int) < store.len(),
        !reaches(store, local as int, fetched as int),
        !reaches(store, fetched as int, local as int),
    ensures
        pull_next_local(store, Some(local), fetched) == Some(local),
        pull_next_tree(store, Some(local), fetched, tree) == tree,
        !pull_succeeds(store, Some(local), fetched),
{
}

/// A successful pull leaves the repository up-to-date with the fetched
/// tip, so an immediately repeated pull finds the up-to-date analysis and
/// changes neither the branch ref nor the working tree: pull is
/// idempotent.
pub proof fn lemma_pull_idempotent(
    store: Seq<Commit>,
    local: Option<usize>,
    fetched: usize,
    tree: u64,
)
    requires
        store_wf(store),
        (fetched as int) < store.len(),
        tip_wf(store, local),
        pull_succeeds(store, local, fetched),
    ensures
        ({
            let local1 = pull_next_local(store, local, fetched);
            let tree1 = pull_next_tree(store, local, fetched, tree);
            &&& analysis_of(store, local1, fetched) is UpToDate
            &&& pull_next_local(store, local1, fetched) == local1
            &&& pull_next_tree(store, local1, fetched, tree1) == tree1
            &&& pull_succeeds(store, local1, fetched)
        }),
{
    assert(reaches(store, fetched as int, fetched as int));
}

} // verus!
