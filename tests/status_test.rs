use std::io::Write;
use std::path::Path;

use git2::{Oid, Repository};
use git_statuses::gitinfo::{push_status, BranchState, Upstream};
use git_statuses::gitinfo::status::{count_changes, special_state_status, RepoState, Status};
use git_statuses::gitinfo::{self};

fn write_file(dir: &Path, name: &str, content: &str) {
    let mut f = tempfile::NamedTempFile::new_in(dir).unwrap();
    f.write_all(content.as_bytes()).unwrap();
    f.persist(dir.join(name)).unwrap();
}

fn init_temp_repo() -> (tempfile::TempDir, Repository) {
    let tmp_dir = tempfile::tempdir().unwrap();
    let repo = Repository::init(tmp_dir.path()).unwrap();
    let mut config = repo.config().unwrap();
    config.set_str("user.name", "Test User").unwrap();
    config.set_str("user.email", "test@example.com").unwrap();
    (tmp_dir, repo)
}

fn commit_file(repo: &Repository, name: &str, content: &str, msg: &str) -> Oid {
    write_file(repo.workdir().unwrap(), name, content);
    let mut index = repo.index().unwrap();
    index.add_path(Path::new(name)).unwrap();
    index.write().unwrap();
    let oid = index.write_tree().unwrap();
    let sig = repo.signature().unwrap();
    let tree = repo.find_tree(oid).unwrap();
    let parents = match repo.head() {
        Ok(h) => vec![repo.find_commit(h.target().unwrap()).unwrap()],
        Err(_) => vec![],
    };
    let refs: Vec<&git2::Commit> = parents.iter().collect();
    repo.commit(Some("HEAD"), &sig, &sig, msg, &tree, &refs).unwrap()
}

#[test]
fn test_status_display_variants() {
    assert_eq!(Status::Clean.to_string(), "Clean");
    assert_eq!(Status::Dirty(3).to_string(), "Dirty (3)");
    assert_eq!(Status::Merge.to_string(), "Merge");
    assert_eq!(Status::Revert.to_string(), "Revert");
    assert_eq!(Status::Rebase.to_string(), "Rebase");
    assert_eq!(Status::Bisect.to_string(), "Bisect");
    assert_eq!(Status::CherryPick.to_string(), "Cherry Pick");
    assert_eq!(Status::Unknown.to_string(), "Unknown");
}

#[test]
fn test_status_descriptions() {
    assert_eq!(Status::Clean.description(), "No changes, no unpushed commits.");
    assert_eq!(Status::Dirty(42).description(), "Working directory has changes.");
    assert_eq!(Status::Merge.description(), "Merge in progress.");
    assert_eq!(Status::Revert.description(), "Revert in progress.");
    assert_eq!(Status::Rebase.description(), "Rebase in progress.");
    assert_eq!(Status::Bisect.description(), "Bisecting in progress.");
    assert_eq!(Status::CherryPick.description(), "Cherry-pick in progress.");
    assert_eq!(Status::Unknown.description(), "Status is unknown or not recognized.");
}

#[test]
fn test_status_new_additional_variants() {
    assert_eq!(Status::Unpublished.to_string(), "Unpublished");
    assert_eq!(Status::Unpushed.to_string(), "Unpushed");
    assert_eq!(Status::Detached.to_string(), "Detached");
}

#[test]
fn test_status_additional_descriptions() {
    assert_eq!(Status::Unpublished.description(), "The branch is not published.");
    assert_eq!(Status::Unpushed.description(), "There are unpushed commits.");
    assert_eq!(
        Status::Detached.description(),
        "The repository is in a detached HEAD state or has no upstream branch."
    );
}

#[test]
fn dirty_label_with_large_count() {
    assert_eq!(Status::Dirty(0).to_string(), "Dirty (0)");
    assert_eq!(Status::Dirty(1207).to_string(), "Dirty (1207)");
}

#[test]
fn default_status_is_unknown() {
    assert_eq!(Status::default(), Status::Unknown);
}

#[test]
fn special_states_map_to_their_status() {
    assert_eq!(special_state_status(RepoState::Clean), None);
    assert_eq!(special_state_status(RepoState::Merge), Some(Status::Merge));
    assert_eq!(special_state_status(RepoState::RevertSequence), Some(Status::Revert));
    assert_eq!(special_state_status(RepoState::CherryPickSequence), Some(Status::CherryPick));
    assert_eq!(special_state_status(RepoState::Bisect), Some(Status::Bisect));
    assert_eq!(special_state_status(RepoState::RebaseInteractive), Some(Status::Rebase));
    assert_eq!(special_state_status(RepoState::RebaseMerge), Some(Status::Rebase));
    assert_eq!(special_state_status(RepoState::ApplyMailbox), Some(Status::Unknown));
}

#[test]
fn merge_state_wins_over_working_tree_changes() {
    assert_eq!(Status::classify(RepoState::Merge, Some(5), Status::Clean), Status::Merge);
    assert_eq!(Status::classify(RepoState::Rebase, None, Status::Clean), Status::Rebase);
}

#[test]
fn classify_working_tree_and_push_status() {
    assert_eq!(Status::classify(RepoState::Clean, Some(2), Status::Clean), Status::Dirty(2));
    assert_eq!(Status::classify(RepoState::Clean, Some(0), Status::Unpushed), Status::Unpushed);
    assert_eq!(Status::classify(RepoState::Clean, None, Status::Clean), Status::Unknown);
}

#[test]
fn count_changes_skips_ignored_and_unchanged_entries() {
    let wt_new = git2::Status::WT_NEW.bits();
    let wt_modified = git2::Status::WT_MODIFIED.bits();
    let index_deleted = git2::Status::INDEX_DELETED.bits();
    let conflicted = git2::Status::CONFLICTED.bits();
    let ignored = git2::Status::IGNORED.bits();
    let renamed = git2::Status::WT_RENAMED.bits();
    assert_eq!(count_changes(&vec![]), 0);
    assert_eq!(count_changes(&vec![wt_new, wt_modified, ignored, renamed]), 2);
    assert_eq!(count_changes(&vec![index_deleted, conflicted, ignored | wt_new]), 2);
}

#[test]
fn test_get_repo_status_clean_dirty() {
    let (_tmp, repo) = init_temp_repo();
    commit_file(&repo, "foo.txt", "bar", "msg");
    assert_eq!(Status::new(&repo), Status::Unpublished);
    write_file(repo.workdir().unwrap(), "foo.txt", "baz");
    assert_eq!(Status::new(&repo), Status::Dirty(1));
}

#[test]
fn test_status_new_with_merge_state() {
    let (_tmp, repo) = init_temp_repo();
    commit_file(&repo, "file.txt", "initial content", "initial");
    write_file(repo.path(), "MERGE_HEAD", "1234567890abcdef1234567890abcdef12345678");
    write_file(repo.workdir().unwrap(), "file.txt", "changed while merging");
    assert_eq!(Status::new(&repo), Status::Merge);
}

#[test]
fn untracked_and_modified_files_make_dirty_two() {
    let (_tmp, repo) = init_temp_repo();
    commit_file(&repo, "tracked.txt", "one", "initial");
    write_file(repo.workdir().unwrap(), "tracked.txt", "two");
    write_file(repo.workdir().unwrap(), "untracked.txt", "new");
    assert_eq!(Status::new(&repo), Status::Dirty(2));
}

#[test]
fn test_get_changed_count_multiple_types() {
    let (_tmp, repo) = init_temp_repo();
    commit_file(&repo, "file1.txt", "content1", "initial");
    let dir = repo.workdir().unwrap().to_path_buf();
    write_file(&dir, "file2.txt", "new content");
    write_file(&dir, "file1.txt", "modified content");
    write_file(&dir, "file3.txt", "staged content");
    let mut index = repo.index().unwrap();
    index.add_path(Path::new("file3.txt")).unwrap();
    index.write().unwrap();
    match Status::new(&repo) {
        Status::Dirty(n) => assert!(n >= 3),
        other => panic!("expected a dirty status, got {:?}", other),
    }
}

#[test]
fn test_get_branch_push_status_unpublished() {
    let (_tmp, repo) = init_temp_repo();
    commit_file(&repo, "file.txt", "content", "commit");
    assert_eq!(gitinfo::get_branch_push_status(&repo), Status::Unpublished);
}

#[test]
fn test_get_branch_push_status_detached() {
    let (_tmp, repo) = init_temp_repo();
    let commit_oid = commit_file(&repo, "file.txt", "content", "commit");
    repo.set_head_detached(commit_oid).unwrap();
    assert_eq!(gitinfo::get_branch_push_status(&repo), Status::Detached);
}

#[test]
fn test_get_branch_push_status_no_remote() {
    let (_tmp, repo) = init_temp_repo();
    commit_file(&repo, "test.txt", "content", "Initial commit");
    assert_eq!(gitinfo::get_branch_push_status(&repo), Status::Unpublished);
}

#[test]
fn push_status_from_what_was_read() {
    assert_eq!(push_status(BranchState::Unreadable), Status::Unknown);
    assert_eq!(push_status(BranchState::Detached), Status::Detached);
    assert_eq!(push_status(BranchState::OnBranch(Upstream::Missing)), Status::Unpublished);
    assert_eq!(push_status(BranchState::OnBranch(Upstream::Compared(2, 5))), Status::Unpushed);
    assert_eq!(push_status(BranchState::OnBranch(Upstream::Compared(0, 5))), Status::Clean);
    assert_eq!(push_status(BranchState::OnBranch(Upstream::CompareFailed)), Status::Unknown);
}

#[test]
fn repository_without_commits_is_unpublished() {
    let (_tmp, repo) = init_temp_repo();
    assert_eq!(Status::new(&repo), Status::Unpublished);
}
