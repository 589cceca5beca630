use pullomatic::config::Config;
use pullomatic::repo::{staging_refspec, sync_decision, Repo, SyncDecision, UpdateError};
use std::time::{SystemTime, UNIX_EPOCH};

fn unique_path(tag: &str) -> String {
    let nanos = SystemTime::now().duration_since(UNIX_EPOCH).unwrap().as_nanos();
    format!("/tmp/pullomatic_{}_{}", tag, nanos)
}

/// Builds a repository at `path` whose `refs/heads/main` points at one
/// deterministic commit, and returns that commit's identity.
fn make_remote(path: &str) -> git2::Oid {
    let repo = git2::Repository::init(path).unwrap();
    let blob = repo.blob(b"hello world\n").unwrap();
    let mut tree = repo.treebuilder(None).unwrap();
    tree.insert("greeting.txt", blob, 0o100644).unwrap();
    let tree_id = tree.write().unwrap();
    let tree = repo.find_tree(tree_id).unwrap();
    let sig =
        git2::Signature::new("tester", "tester@example.com", &git2::Time::new(1500000000, 0))
            .unwrap();
    let commit_id = repo.commit(None, &sig, &sig, "initial", &tree, &[]).unwrap();
    repo.reference("refs/heads/main", commit_id, true, "test setup").unwrap();
    commit_id
}

fn config_for(local: &str, remote: &str) -> Config {
    Config {
        path: local.to_string(),
        remote_url: remote.to_string(),
        remote_ref: "refs/heads/main".to_string(),
        interval: Some(60),
        credentials: None,
    }
}

#[test]
fn refspec_lands_remote_ref_on_staging_ref() {
    let r = staging_refspec(&"refs/heads/main".to_string());
    assert_eq!(r.as_str(), "+refs/heads/main:refs/pullomatic");
}

#[test]
fn decision_skips_reset_only_on_equal_identities() {
    let a = vec![1u8, 2, 3];
    let b = vec![1u8, 2, 3];
    let c = vec![1u8, 2, 4];
    assert_eq!(sync_decision(&Some(a.clone()), &b), SyncDecision::AlreadyUpToDate);
    assert_eq!(sync_decision(&Some(a.clone()), &c), SyncDecision::NeedsReset);
    assert_eq!(sync_decision(&None, &b), SyncDecision::NeedsReset);
}

#[test]
fn new_repo_is_unchecked_and_unchanged() {
    let config = config_for("/tmp/none", "/tmp/none-remote");
    let repo = Repo::new("mirror".to_string(), config);
    assert_eq!(repo.name(), "mirror");
    assert_eq!(repo.config().path.as_str(), "/tmp/none");
    assert_eq!(repo.last_checked(), None);
    assert_eq!(repo.last_changed(), None);
}

#[test]
fn first_sync_of_fresh_repository_reports_change() {
    let remote_path = unique_path("remote_a");
    let local_path = unique_path("local_a");
    make_remote(&remote_path);

    let mut repo = Repo::new("a".to_string(), config_for(&local_path, &remote_path));
    // No local HEAD exists yet: the update must still proceed and report true.
    let changed = repo.update(100).unwrap();
    assert!(changed);
    assert_eq!(repo.last_checked(), Some(100));
    assert_eq!(repo.last_changed(), Some(100));
}

#[test]
fn successful_update_converges_local_head_to_remote_ref() {
    let remote_path = unique_path("remote_b");
    let local_path = unique_path("local_b");
    let remote_id = make_remote(&remote_path);

    let mut repo = Repo::new("b".to_string(), config_for(&local_path, &remote_path));
    assert!(repo.update(100).unwrap());

    let local = git2::Repository::open(&local_path).unwrap();
    let head_id = local.revparse_single("HEAD").unwrap().id();
    let staged_id = local.revparse_single("refs/pullomatic").unwrap().id();
    assert_eq!(head_id, remote_id);
    assert_eq!(staged_id, remote_id);
}

#[test]
fn second_update_without_remote_change_is_idempotent() {
    let remote_path = unique_path("remote_c");
    let local_path = unique_path("local_c");
    make_remote(&remote_path);

    let mut repo = Repo::new("c".to_string(), config_for(&local_path, &remote_path));
    assert!(repo.update(100).unwrap());
    // Nothing changed upstream: the second call reports false and leaves the
    // "changed" timestamp exactly as the first call set it.
    let changed_again = repo.update(200).unwrap();
    assert!(!changed_again);
    assert_eq!(repo.last_checked(), Some(200));
    assert_eq!(repo.last_changed(), Some(100));
}

#[test]
fn update_picks_up_a_new_remote_commit() {
    let remote_path = unique_path("remote_d");
    let local_path = unique_path("local_d");
    make_remote(&remote_path);

    let mut repo = Repo::new("d".to_string(), config_for(&local_path, &remote_path));
    assert!(repo.update(100).unwrap());

    // Move the remote reference to a different commit; the next update must
    // report a change again and converge on the new identity.
    let remote = git2::Repository::open(&remote_path).unwrap();
    let blob = remote.blob(b"changed\n").unwrap();
    let mut tree = remote.treebuilder(None).unwrap();
    tree.insert("greeting.txt", blob, 0o100644).unwrap();
    let tree_id = tree.write().unwrap();
    let tree = remote.find_tree(tree_id).unwrap();
    let sig =
        git2::Signature::new("tester", "tester@example.com", &git2::Time::new(1500000100, 0))
            .unwrap();
    let new_id = remote.commit(None, &sig, &sig, "second", &tree, &[]).unwrap();
    remote.reference("refs/heads/main", new_id, true, "test update").unwrap();

    assert!(repo.update(200).unwrap());
    assert_eq!(repo.last_changed(), Some(200));
    let local = git2::Repository::open(&local_path).unwrap();
    assert_eq!(local.revparse_single("HEAD").unwrap().id(), new_id);
}

#[test]
fn uncreatable_local_path_surfaces_local_io_error() {
    // A path under a non-directory cannot be created: the initialize step
    // fails in its filesystem work, which is the local I/O error kind.
    let mut repo = Repo::new("f".to_string(), config_for("/dev/null/sub", "/tmp/unused"));
    let err = repo.update(100).unwrap_err();
    assert!(matches!(err, UpdateError::Io(_)));
    assert_eq!(repo.last_checked(), Some(100));
    assert_eq!(repo.last_changed(), None);
}

#[test]
fn errors_convert_into_their_update_error_variants() {
    let git_err = git2::Error::from_str("boom");
    assert!(matches!(UpdateError::from(git_err), UpdateError::Git(_)));
    let io_err = std::io::Error::new(std::io::ErrorKind::NotFound, "gone");
    assert!(matches!(UpdateError::from(io_err), UpdateError::Io(_)));
}

#[test]
fn failed_fetch_surfaces_git_error_and_keeps_changed_timestamp() {
    let local_path = unique_path("local_e");
    let missing_remote = unique_path("remote_e_missing");

    let mut repo = Repo::new("e".to_string(), config_for(&local_path, &missing_remote));
    let err = repo.update(100).unwrap_err();
    assert!(matches!(err, UpdateError::Git(_)));
    // Checked is recorded even on failure; changed only on confirmed success.
    assert_eq!(repo.last_checked(), Some(100));
    assert_eq!(repo.last_changed(), None);
}
