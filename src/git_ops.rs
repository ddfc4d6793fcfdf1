//! The calls into git2 that the library relies on. Each result depends on what
//! is on disk, so the contracts here promise nothing about the values read;
//! the verified code states what it does for every value that can come back.
use vstd::prelude::*;
use git2::{BranchType, Repository, RepositoryState, StatusOptions};
use crate::gitinfo::status::RepoState;

verus! {

#[verifier::external_type_specification]
#[verifier::external_body]
pub struct ExRepository(git2::Repository);

#[verifier::external_type_specification]
#[verifier::external_body]
pub struct ExOid(git2::Oid);

/// What the library reads of a git reference.
pub struct RefFacts {
    /// Whether the reference is a local branch.
    pub is_branch: bool,
    /// The short, human-readable name, where it is valid UTF-8.
    pub shorthand: Option<String>,
    /// The commit it points at, for a direct reference.
    pub target: Option<git2::Oid>,
    /// The name of the reference it points at, for a symbolic reference.
    pub symbolic_target: Option<String>,
}

/// Relies on `git2::Repository::open`: opens the repository at a path.
#[verifier::external_body]
pub(crate) fn open_repository(path: &str) -> (r: Option<Repository>) {
    Repository::open(path).ok()
}

/// Relies on `git2::Repository::state`: the operation left in progress.
#[verifier::external_body]
pub(crate) fn repo_state(repo: &Repository) -> (r: RepoState) {
    match repo.state() {
        RepositoryState::Clean => RepoState::Clean,
        RepositoryState::Merge => RepoState::Merge,
        RepositoryState::Revert => RepoState::Revert,
        RepositoryState::RevertSequence => RepoState::RevertSequence,
        RepositoryState::CherryPick => RepoState::CherryPick,
        RepositoryState::CherryPickSequence => RepoState::CherryPickSequence,
        RepositoryState::Bisect => RepoState::Bisect,
        RepositoryState::Rebase => RepoState::Rebase,
        RepositoryState::RebaseInteractive => RepoState::RebaseInteractive,
        RepositoryState::RebaseMerge => RepoState::RebaseMerge,
        RepositoryState::ApplyMailbox => RepoState::ApplyMailbox,
        RepositoryState::ApplyMailboxOrRebase => RepoState::ApplyMailboxOrRebase,
    }
}

/// Relies on `git2::Repository::statuses`, untracked files included and
/// ignored ones left out: the flag bits of each entry, `None` where the
/// working tree could not be read.
#[verifier::external_body]
pub(crate) fn status_flags(repo: &Repository) -> (r: Option<Vec<u32>>) {
    let mut opts = StatusOptions::new();
    opts.include_untracked(true).include_ignored(false);
    let statuses = repo.statuses(Some(&mut opts)).ok()?;
    Some(statuses.iter().map(|e| e.status().bits()).collect())
}

/// Relies on `git2::Repository::head`: HEAD resolved, `None` where it cannot be.
#[verifier::external_body]
pub(crate) fn read_head(repo: &Repository) -> (r: Option<RefFacts>) {
    let head = repo.head().ok()?;
    Some(RefFacts {
        is_branch: head.is_branch(),
        shorthand: head.shorthand().map(str::to_owned),
        target: head.target(),
        symbolic_target: head.symbolic_target().map(str::to_owned),
    })
}

/// Relies on `git2::Repository::find_reference`: the reference of that full
/// name, without resolving it, `None` where there is none.
#[verifier::external_body]
pub(crate) fn find_reference(repo: &Repository, name: &str) -> (r: Option<RefFacts>) {
    let found = repo.find_reference(name).ok()?;
    Some(RefFacts {
        is_branch: found.is_branch(),
        shorthand: found.shorthand().map(str::to_owned),
        target: found.target(),
        symbolic_target: found.symbolic_target().map(str::to_owned),
    })
}

/// Relies on `git2::Repository::find_remote`: `None` where no remote has that
/// name, else the remote's URL where it is valid UTF-8.
#[verifier::external_body]
pub(crate) fn find_remote_url(repo: &Repository, name: &str) -> (r: Option<Option<String>>) {
    let remote = repo.find_remote(name).ok()?;
    Some(remote.url().map(str::to_owned))
}

/// Relies on `git2::Repository::remotes`: the name of the first configured
/// remote, `None` where there is none or the list cannot be read.
#[verifier::external_body]
pub(crate) fn first_remote_name(repo: &Repository) -> (r: Option<String>) {
    let names = repo.remotes().ok()?;
    names.get(0).map(str::to_owned)
}

/// Relies on `git2::Repository::find_branch` and `git2::Branch::upstream`: the
/// tips of a local branch and of its upstream, `None` where the branch or its
/// upstream cannot be found.
#[verifier::external_body]
pub(crate) fn upstream_tips(repo: &Repository, branch: &str) -> (r: Option<(Option<git2::Oid>, Option<git2::Oid>)>) {
    let local = repo.find_branch(branch, BranchType::Local).ok()?;
    let upstream = local.upstream().ok()?;
    Some((local.get().target(), upstream.get().target()))
}

/// Relies on `git2::Repository::graph_ahead_behind`: the commits reachable
/// from `local` only and from `upstream` only, `None` on failure.
#[verifier::external_body]
pub(crate) fn ahead_behind(repo: &Repository, local: git2::Oid, upstream: git2::Oid) -> (r: Option<(usize, usize)>) {
    repo.graph_ahead_behind(local, upstream).ok()
}

/// Relies on `git2::Repository::revwalk`: the number of commits reachable
/// from `tip`, `None` where the walk cannot start.
#[verifier::external_body]
pub(crate) fn reachable_commits(repo: &Repository, tip: git2::Oid) -> (r: Option<usize>) {
    let mut walk = repo.revwalk().ok()?;
    walk.push(tip).ok()?;
    Some(walk.count())
}

/// Relies on `git2::Repository::reflog` and `git2::Reflog::len`: the number
/// of entries in the stash's reflog, one per stash entry; `None` where it
/// cannot be read.
#[verifier::external_body]
pub(crate) fn stash_len(repo: &Repository) -> (r: Option<usize>) {
    repo.reflog("refs/stash").ok().map(|log| log.len())
}

/// Relies on `git2::Repository::path`: the repository's git directory.
#[verifier::external_body]
pub(crate) fn git_dir(repo: &Repository) -> (r: String) {
    repo.path().to_string_lossy().into_owned()
}

/// Relies on `git2::Repository::find_annotated_commit` and
/// `git2::Repository::merge_analysis`: whether merging `upstream` into HEAD
/// is a fast-forward, and whether the configuration forbids fast-forwards;
/// `None` where the analysis fails.
#[verifier::external_body]
pub(crate) fn merge_analysis(repo: &Repository, upstream: git2::Oid) -> (r: Option<(bool, bool)>) {
    let commit = repo.find_annotated_commit(upstream).ok()?;
    let (analysis, preference) = repo.merge_analysis(&[&commit]).ok()?;
    Some((analysis.is_fast_forward(), preference.is_no_fast_forward()))
}

/// Relies on `git2::Repository::checkout_tree` and
/// `git2::Reference::set_target`: checks out `target` and moves HEAD's branch
/// to it; whether both succeeded.
#[verifier::external_body]
pub(crate) fn fast_forward_to(repo: &Repository, target: git2::Oid) -> (r: bool) {
    let Ok(object) = repo.find_object(target, None) else { return false };
    let Ok(mut head) = repo.head() else { return false };
    repo.checkout_tree(&object, None).is_ok()
        && head.set_target(target, "fast-forward to upstream").is_ok()
}

} // verus!
