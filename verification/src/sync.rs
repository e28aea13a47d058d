//! The three sync entry points, orchestrating the committer, the
//! publisher and the synchronizer over a [`SyncState`].
//!
//! Every failure is terminal for its operation and nothing is rolled
//! back: in particular a commit that lands before a failing push stays in
//! place, ready for a later retry of the push.

use vstd::prelude::*;
use vstd::string::*;

use crate::error::SyncError;
use crate::repo::SyncState;
use crate::repo::commit_next_store;
use crate::repo::commit_next_tip;
use crate::repo::lemma_reaches_push;
use crate::repo::next_commit;
use crate::repo::pull_next_local;
use crate::repo::pull_next_tree;
use crate::repo::pull_succeeds;
use crate::repo::push_accepted;
use crate::repo::reaches;

verus! {

/// `sync init <REMOTE_URL>`: point `origin` at the URL, create the root
/// commit from the working tree, and push it.
///
/// Initializing where a branch already exists fails at the root commit's
/// ref update (the branch cannot be rewound to a parentless commit), with
/// the remote URL already reset — nothing is rolled back. Against a path
/// with no repository, success leaves exactly one commit on `main`: a
/// root commit with message `Initial`, pushed to the remote, which
/// accepts it only when its own `main` is still absent.
pub fn init(state: &mut SyncState, remote: String) -> (r: Result<(), SyncError>)
    requires
        old(state).wf(),
    ensures
        final(state).wf(),
        final(state).remote_url is Some && final(state).remote_url->0 == remote,
        final(state).work_tree == old(state).work_tree,
        old(state).local_main is Some ==> {
            &&& r == Err::<(), SyncError>(SyncError::CommitFailure)
            &&& final(state).store@ == old(state).store@
            &&& final(state).local_main == old(state).local_main
            &&& final(state).remote_main == old(state).remote_main
        },
        old(state).local_main is None ==> {
            &&& final(state).store@.len() == old(state).store@.len() + 1
            &&& final(state).store@.subrange(0, old(state).store@.len() as int) == old(
                state,
            ).store@
            &&& final(state).local_main == commit_next_tip(old(state).store@)
            &&& final(state).store@[old(state).store@.len() as int].parent is None
            &&& final(state).store@[old(state).store@.len() as int].tree == old(state).work_tree
            &&& final(state).store@[old(state).store@.len() as int].message@ == "Initial"@
            &&& (r is Ok <==> old(state).remote_main is None)
            &&& (r is Ok ==> final(state).remote_main == final(state).local_main)
            &&& (r is Err ==> final(state).remote_main == old(state).remote_main && r == Err::<
                (),
                SyncError,
            >(SyncError::PushFailure))
        },
        (old(state).local_main is None && r is Ok) ==> {
            &&& final(state).local_main is Some
            &&& final(state).store@[final(state).local_main->0 as int].parent is None
            &&& final(state).store@[final(state).local_main->0 as int].message@ == "Initial"@
            &&& final(state).remote_url->0@ == remote@
        },
{
    let ghost s0 = *state;
    state.remote_url = Some(remote);
    if state.local_main.is_some() {
        // the branch ref cannot be rewound to a fresh parentless commit
        return Err(SyncError::CommitFailure);
    }
    let message = String::from_str("Initial");
    let idx = state.commit_all(message);
    proof {
        assert(state.store@.subrange(0, s0.store@.len() as int) =~= s0.store@);
        if s0.remote_main is Some {
            // a preexisting remote tip is a strict predecessor of the new
            // root commit, which reaches nothing but itself
            assert(!reaches(state.store@, s0.remote_main->0 as int, idx as int));
        }
    }
    state.push_main()
}

/// `sync push <MESSAGE>`: stage the whole working tree, commit it with
/// the given message on top of the current branch tip, and push `main` to
/// the remote.
///
/// A repository with no commit yet has no branch tip to serve as parent:
/// resolving it fails the commit step and nothing is created — the first
/// commit must come from `init`. Otherwise the commit lands first, and a
/// missing `origin` or a rejected push leaves it in place for a later
/// retry. The (non-forced) push is accepted exactly when the remote tip
/// is absent or already part of the local history.
pub fn push(state: &mut SyncState, message: String) -> (r: Result<(), SyncError>)
    requires
        old(state).wf(),
    ensures
        final(state).wf(),
        final(state).work_tree == old(state).work_tree,
        final(state).remote_url == old(state).remote_url,
        old(state).local_main is None ==> {
            &&& r == Err::<(), SyncError>(SyncError::CommitFailure)
            &&& final(state).store@ == old(state).store@
            &&& final(state).local_main == old(state).local_main
            &&& final(state).remote_main == old(state).remote_main
        },
        old(state).local_main is Some ==> {
            &&& final(state).store@ == commit_next_store(
                old(state).store@,
                old(state).local_main,
                old(state).work_tree,
                message,
            )
            &&& final(state).local_main == commit_next_tip(old(state).store@)
            &&& (r is Ok <==> (old(state).remote_url is Some && push_accepted(
                old(state).store@,
                old(state).remote_main,
                old(state).local_main->0 as int,
            )))
            &&& (r is Ok ==> final(state).remote_main == final(state).local_main)
            &&& (r is Err ==> final(state).remote_main == old(state).remote_main)
            &&& (old(state).remote_url is None ==> r == Err::<(), SyncError>(
                SyncError::RemoteLookupFailure,
            ))
            &&& ((old(state).remote_url is Some && !push_accepted(
                old(state).store@,
                old(state).remote_main,
                old(state).local_main->0 as int,
            )) ==> r == Err::<(), SyncError>(SyncError::PushFailure))
        },
{
    let ghost s0 = *state;
    if state.local_main.is_none() {
        // no branch tip resolves to serve as the sole parent
        return Err(SyncError::CommitFailure);
    }
    let idx = state.commit_all(message);
    if state.remote_url.is_none() {
        return Err(SyncError::RemoteLookupFailure);
    }
    proof {
        if s0.remote_main is Some {
            let rm = s0.remote_main->0 as int;
            let appended = next_commit(s0.local_main, s0.work_tree, message);
            let l = s0.local_main->0;
            // the new tip is fresh, so acceptance turns on its parent chain
            lemma_reaches_push(s0.store@, appended, rm, l as int);
            assert(reaches(state.store@, rm, idx as int) == reaches(s0.store@, rm, l as int));
        }
    }
    state.push_main()
}

/// `sync pull`: fetch `main` from `origin` and apply a fast-forward-only
/// update.
///
/// A missing `origin` fails the remote lookup; a remote without a `main`
/// branch fails the fetch; otherwise the fetched tip is analyzed and
/// applied: fast-forward advances local `main` to exactly the fetched tip
/// and force-checks-out its snapshot, up-to-date changes nothing, and
/// divergence is rejected as an unsupported merge with nothing changed.
pub fn pull(state: &mut SyncState) -> (r: Result<(), SyncError>)
    requires
        old(state).wf(),
    ensures
        final(state).wf(),
        final(state).store@ == old(state).store@,
        final(state).remote_main == old(state).remote_main,
        final(state).remote_url == old(state).remote_url,
        old(state).remote_url is None ==> {
            &&& r == Err::<(), SyncError>(SyncError::RemoteLookupFailure)
            &&& final(state).local_main == old(state).local_main
            &&& final(state).work_tree == old(state).work_tree
        },
        (old(state).remote_url is Some && old(state).remote_main is None) ==> {
            &&& r == Err::<(), SyncError>(SyncError::FetchFailure)
            &&& final(state).local_main == old(state).local_main
            &&& final(state).work_tree == old(state).work_tree
        },
        (old(state).remote_url is Some && old(state).remote_main is Some) ==> {
            &&& final(state).local_main == pull_next_local(
                old(state).store@,
                old(state).local_main,
                old(state).remote_main->0,
            )
            &&& final(state).work_tree == pull_next_tree(
                old(state).store@,
                old(state).local_main,
                old(state).remote_main->0,
                old(state).work_tree,
            )
            &&& (r is Ok <==> pull_succeeds(
                old(state).store@,
                old(state).local_main,
                old(state).remote_main->0,
            ))
            &&& (r is Err ==> r == Err::<(), SyncError>(SyncError::UnsupportedMerge))
        },
{
    if state.remote_url.is_none() {
        return Err(SyncError::RemoteLookupFailure);
    }
    if state.remote_main.is_none() {
        // the remote has no `main` ref to fetch
        return Err(SyncError::FetchFailure);
    }
    state.pull_ff()
}

} // verus!
