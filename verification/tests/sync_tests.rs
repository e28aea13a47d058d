use grom::repo::{classify_analysis, pull_action, MergeAnalysis, PullAction, SyncState};
use grom::sync::{init, pull, push};
use grom::SyncError;

fn url() -> String {
    String::from("ssh://git@host/notes.git")
}

#[test]
fn init_fresh_repo_leaves_one_initial_commit() {
    let mut state = SyncState::new(7);
    let r = init(&mut state, url());
    assert!(r.is_ok());
    assert_eq!(state.store.len(), 1);
    assert_eq!(state.store[0].message, "Initial");
    assert_eq!(state.store[0].parent, None);
    assert_eq!(state.store[0].tree, 7);
    assert_eq!(state.local_main, Some(0));
    assert_eq!(state.remote_main, Some(0));
    assert_eq!(state.remote_url.as_deref(), Some("ssh://git@host/notes.git"));
}

#[test]
fn init_on_existing_branch_fails_with_commit_failure() {
    let mut state = SyncState::new(1);
    init(&mut state, url()).unwrap();
    let r = init(&mut state, String::from("https://host/other.git"));
    assert_eq!(r, Err(SyncError::CommitFailure));
    assert_eq!(state.store.len(), 1);
    assert_eq!(state.local_main, Some(0));
    // the remote URL was already reset before the failure and stays reset
    assert_eq!(state.remote_url.as_deref(), Some("https://host/other.git"));
}

#[test]
fn init_push_rejected_by_nonempty_remote() {
    let mut state = SyncState::new(1);
    state.remote_commit(String::from("made elsewhere"), 9);
    let r = init(&mut state, url());
    assert_eq!(r, Err(SyncError::PushFailure));
    // the root commit landed locally and is not rolled back
    assert_eq!(state.store.len(), 2);
    assert_eq!(state.local_main, Some(1));
    assert_eq!(state.remote_main, Some(0));
}

#[test]
fn committing_twice_chains_the_commits() {
    let mut state = SyncState::new(1);
    let first = state.commit_all(String::from("first message"));
    state.set_working_tree(2);
    let second = state.commit_all(String::from("second message"));
    assert_eq!(state.store[second].parent, Some(first));
    assert_eq!(state.store[first].parent, None);
    assert_eq!(state.store[first].message, "first message");
    assert_eq!(state.store[second].message, "second message");
    assert_eq!(state.local_main, Some(second));
}

#[test]
fn push_commits_on_top_of_head_and_advances_remote() {
    let mut state = SyncState::new(1);
    init(&mut state, url()).unwrap();
    state.set_working_tree(2);
    let r = push(&mut state, String::from("update notes"));
    assert!(r.is_ok());
    assert_eq!(state.store.len(), 2);
    assert_eq!(state.store[1].parent, Some(0));
    assert_eq!(state.store[1].message, "update notes");
    assert_eq!(state.store[1].tree, 2);
    assert_eq!(state.local_main, Some(1));
    assert_eq!(state.remote_main, Some(1));
}

#[test]
fn push_on_empty_repository_fails_without_committing() {
    // no branch tip resolves to serve as parent: the first commit must
    // come from init
    let mut state = SyncState::new(1);
    state.remote_url = Some(url());
    let r = push(&mut state, String::from("too early"));
    assert_eq!(r, Err(SyncError::CommitFailure));
    assert_eq!(state.store.len(), 0);
    assert_eq!(state.local_main, None);
    assert_eq!(state.remote_main, None);
}

#[test]
fn push_without_origin_keeps_the_commit() {
    let mut state = SyncState::new(1);
    state.commit_all(String::from("base"));
    let r = push(&mut state, String::from("kept"));
    assert_eq!(r, Err(SyncError::RemoteLookupFailure));
    assert_eq!(state.store.len(), 2);
    assert_eq!(state.store[1].message, "kept");
    assert_eq!(state.local_main, Some(1));
    assert_eq!(state.remote_main, None);
}

#[test]
fn push_rejected_by_diverged_remote_keeps_the_commit() {
    let mut state = SyncState::new(1);
    init(&mut state, url()).unwrap();
    state.remote_commit(String::from("made elsewhere"), 9);
    state.set_working_tree(2);
    let r = push(&mut state, String::from("mine"));
    assert_eq!(r, Err(SyncError::PushFailure));
    // no rollback: the local commit stays, ready for a later retry
    assert_eq!(state.store.len(), 3);
    assert_eq!(state.local_main, Some(2));
    assert_eq!(state.remote_main, Some(1));
}

#[test]
fn pull_fast_forwards_to_the_remote_tip() {
    let mut state = SyncState::new(1);
    init(&mut state, url()).unwrap();
    let remote_tip = state.remote_commit(String::from("remote work"), 9);
    let r = pull(&mut state);
    assert!(r.is_ok());
    assert_eq!(state.local_main, Some(remote_tip));
    assert_eq!(state.work_tree, 9);
}

#[test]
fn pull_rejects_true_divergence() {
    let mut state = SyncState::new(1);
    init(&mut state, url()).unwrap();
    state.set_working_tree(2);
    let local_tip = state.commit_all(String::from("local only"));
    state.remote_commit(String::from("remote only"), 9);
    let r = pull(&mut state);
    assert_eq!(r, Err(SyncError::UnsupportedMerge));
    assert_eq!(state.local_main, Some(local_tip));
    assert_eq!(state.work_tree, 2);
}

#[test]
fn pull_twice_when_up_to_date_changes_nothing() {
    let mut state = SyncState::new(1);
    init(&mut state, url()).unwrap();
    state.remote_commit(String::from("remote work"), 9);
    pull(&mut state).unwrap();
    let local_before = state.local_main;
    let tree_before = state.work_tree;
    let store_len_before = state.store.len();
    let r = pull(&mut state);
    assert!(r.is_ok());
    assert_eq!(state.local_main, local_before);
    assert_eq!(state.work_tree, tree_before);
    assert_eq!(state.store.len(), store_len_before);
    let again = pull(&mut state);
    assert!(again.is_ok());
    assert_eq!(state.local_main, local_before);
    assert_eq!(state.work_tree, tree_before);
}

#[test]
fn analysis_flags_classify_as_three_states() {
    assert_eq!(classify_analysis(true, false), MergeAnalysis::UpToDate);
    assert_eq!(classify_analysis(true, true), MergeAnalysis::UpToDate);
    assert_eq!(classify_analysis(false, true), MergeAnalysis::FastForward);
    assert_eq!(classify_analysis(false, false), MergeAnalysis::Diverged);
}

#[test]
fn pull_action_follows_the_analysis() {
    assert_eq!(pull_action(MergeAnalysis::UpToDate), PullAction::AlreadyCurrent);
    assert_eq!(pull_action(MergeAnalysis::FastForward), PullAction::Advance);
    assert_eq!(pull_action(MergeAnalysis::Diverged), PullAction::Reject);
}

#[test]
fn pull_without_origin_fails_remote_lookup() {
    let mut state = SyncState::new(1);
    let r = pull(&mut state);
    assert_eq!(r, Err(SyncError::RemoteLookupFailure));
}

#[test]
fn pull_from_remote_without_main_fails_the_fetch() {
    let mut state = SyncState::new(1);
    state.remote_url = Some(url());
    let r = pull(&mut state);
    assert_eq!(r, Err(SyncError::FetchFailure));
    assert_eq!(state.local_main, None);
    assert_eq!(state.work_tree, 1);
}

// End to end: the local repository holds one file `a.md` = "x" (snapshot
// 1) committed on `main`; the remote holds `a.md` = "y" (snapshot 2)
// committed on top of it. Pulling sets local `main` to the remote commit
// and the working tree to "y".
#[test]
fn pull_end_to_end_fast_forward() {
    let snapshot_x: u64 = 1;
    let snapshot_y: u64 = 2;
    let mut state = SyncState::new(snapshot_x);
    init(&mut state, url()).unwrap();
    let c1 = state.local_main.unwrap();
    let c2 = state.remote_commit(String::from("change a.md to y"), snapshot_y);
    assert_eq!(state.store[c2].parent, Some(c1));
    let r = pull(&mut state);
    assert!(r.is_ok());
    assert_eq!(state.local_main, Some(c2));
    assert_eq!(state.work_tree, snapshot_y);
}

// End to end: local and remote each hold one independent commit with no
// common ancestor. Pulling fails and `a.md` is unchanged locally.
#[test]
fn pull_end_to_end_divergence() {
    let snapshot_x: u64 = 1;
    let snapshot_y: u64 = 2;
    let mut state = SyncState::new(snapshot_x);
    state.remote_url = Some(url());
    let c1 = state.commit_all(String::from("local root"));
    let c2 = state.remote_commit(String::from("remote root"), snapshot_y);
    assert_eq!(state.store[c1].parent, None);
    assert_eq!(state.store[c2].parent, None);
    let r = pull(&mut state);
    assert_eq!(r, Err(SyncError::UnsupportedMerge));
    assert_eq!(state.local_main, Some(c1));
    assert_eq!(state.work_tree, snapshot_x);
}
