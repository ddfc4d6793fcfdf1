//! Reading a repository: branch, divergence from upstream, auxiliary metrics
//! and publication status.
pub mod repoinfo;
pub mod status;

use vstd::prelude::*;
use git2::Repository;
use crate::git_ops::{
    ahead_behind, fast_forward_to, find_reference, find_remote_url, first_remote_name, git_dir,
    merge_analysis, read_head, reachable_commits, stash_len, upstream_tips, RefFacts,
};
use crate::gitinfo::status::{is_push_status, Status};
use crate::text::{
    after_last, join2, opt_opt_view, opt_view, segment_after_last, strip_suffix, string_of, trim_end, trim_end_char,
    without_suffix,
};

verus! {

/// The branch label for a HEAD that names no commit yet.
pub open spec fn unborn_label(symbolic: Seq<char>) -> Seq<char> {
    after_last(symbolic, '/') + " (no commits)"@
}

/// The label shown for the current branch. `head` is HEAD as resolved;
/// `head_symbolic` is what HEAD points at by name, read where it cannot be
/// resolved.
pub open spec fn branch_label_of(head: Option<RefFacts>, head_symbolic: Option<Seq<char>>) -> Seq<char> {
    match head {
        Some(h) => if !h.is_branch {
            "N/A"@
        } else if h.shorthand is Some {
            h.shorthand.unwrap()@
        } else if h.symbolic_target is Some {
            unborn_label(h.symbolic_target.unwrap()@)
        } else {
            "(no branch)"@
        },
        None => match head_symbolic {
            Some(s) => unborn_label(s),
            None => "(no branch)"@,
        },
    }
}

/// The label shown for the current branch: its short name; `<name> (no
/// commits)` for a branch without commits; `N/A` for a detached HEAD;
/// `(no branch)` where HEAD cannot be read.
pub fn branch_label(head: Option<&RefFacts>, head_symbolic: Option<&String>) -> (r: String)
    ensures
        r@ == branch_label_of(
            match head { Some(h) => Some(*h), None => None },
            match head_symbolic { Some(s) => Some(s@), None => None },
        ),
{
    match head {
        Some(h) => {
            if !h.is_branch {
                string_of("N/A")
            } else if let Some(name) = &h.shorthand {
                name.clone()
            } else if let Some(target) = &h.symbolic_target {
                let seg = segment_after_last(target.as_str(), '/');
                join2(seg.as_str(), " (no commits)")
            } else {
                string_of("(no branch)")
            }
        },
        None => match head_symbolic {
            Some(target) => {
                let seg = segment_after_last(target.as_str(), '/');
                join2(seg.as_str(), " (no commits)")
            },
            None => string_of("(no branch)"),
        },
    }
}

/// Returns the current branch name, or a label that says why there is none.
pub fn get_branch_name(repo: &Repository) -> (r: String)
    ensures
        exists|head: Option<RefFacts>, sym: Option<Seq<char>>| r@ == branch_label_of(head, sym),
{
    let head = read_head(repo);
    match head {
        Some(h) => branch_label(Some(&h), None),
        None => {
            let head_ref = find_reference(repo, "HEAD");
            let sym = match head_ref {
                Some(f) => f.symbolic_target,
                None => None,
            };
            match sym {
                Some(s) => branch_label(None, Some(&s)),
                None => branch_label(None, None),
            }
        },
    }
}

/// What was found of the current branch's upstream.
#[derive(Clone, Copy, Debug, PartialEq, Eq, Structural)]
pub enum Upstream {
    /// No upstream could be resolved: none configured, or a branch or
    /// upstream without a tip.
    Missing,
    /// Both tips were found and compared: commits ahead, commits behind.
    Compared(usize, usize),
    /// Both tips were found but the history comparison failed.
    CompareFailed,
}

/// HEAD's branch and its upstream, resolved once; both the publication status
/// and the divergence counts are taken from it.
#[derive(Clone, Copy, Debug, PartialEq, Eq, Structural)]
pub enum BranchState {
    /// HEAD can be read neither as a branch nor as a reference to one.
    Unreadable,
    /// HEAD points at a commit, not at a branch.
    Detached,
    /// HEAD is on a branch (possibly one without commits yet).
    OnBranch(Upstream),
}

/// The branch state from what was read. `head` is HEAD as resolved; `unborn`
/// whether an unresolvable HEAD still names a branch (one without commits);
/// `tips` whether the branch's tip and its upstream's tip were found, `None`
/// where the branch or its upstream could not be looked up; `compared` the
/// history comparison of the two tips, `None` where it failed.
pub open spec fn branch_state_of(
    head: Option<RefFacts>,
    unborn: bool,
    tips: Option<(bool, bool)>,
    compared: Option<(usize, usize)>,
) -> BranchState {
    match head {
        None => if unborn { BranchState::OnBranch(Upstream::Missing) } else { BranchState::Unreadable },
        Some(h) => if !h.is_branch {
            BranchState::Detached
        } else if h.shorthand is None {
            BranchState::Unreadable
        } else if tips == Some((true, true)) {
            match compared {
                Some((a, b)) => BranchState::OnBranch(Upstream::Compared(a, b)),
                None => BranchState::OnBranch(Upstream::CompareFailed),
            }
        } else {
            BranchState::OnBranch(Upstream::Missing)
        },
    }
}

/// The branch state from what was read of HEAD and its upstream.
pub fn branch_state(
    head: Option<&RefFacts>,
    unborn: bool,
    tips: Option<(bool, bool)>,
    compared: Option<(usize, usize)>,
) -> (r: BranchState)
    ensures
        r == branch_state_of(match head { Some(h) => Some(*h), None => None }, unborn, tips, compared),
{
    match head {
        None => if unborn { BranchState::OnBranch(Upstream::Missing) } else { BranchState::Unreadable },
        Some(h) => if !h.is_branch {
            BranchState::Detached
        } else if h.shorthand.is_none() {
            BranchState::Unreadable
        } else if tips == Some((true, true)) {
            match compared {
                Some((a, b)) => BranchState::OnBranch(Upstream::Compared(a, b)),
                None => BranchState::OnBranch(Upstream::CompareFailed),
            }
        } else {
            BranchState::OnBranch(Upstream::Missing)
        },
    }
}

/// Reads HEAD and resolves its branch's configured upstream, once.
pub fn read_branch_state(repo: &Repository) -> (r: BranchState)
    ensures
        exists|head: Option<RefFacts>, unborn: bool, tips: Option<(bool, bool)>, compared: Option<(usize, usize)>|
            r == branch_state_of(head, unborn, tips, compared),
{
    let head = read_head(repo);
    match &head {
        None => {
            let unborn = match find_reference(repo, "HEAD") {
                Some(f) => f.symbolic_target.is_some(),
                None => false,
            };
            branch_state(None, unborn, None, None)
        },
        Some(h) => {
            if !h.is_branch {
                return branch_state(Some(h), false, None, None);
            }
            match &h.shorthand {
                None => branch_state(Some(h), false, None, None),
                Some(name) => {
                    let (tips, compared) = match upstream_tips(repo, name.as_str()) {
                        Some((Some(local), Some(up))) => (Some((true, true)), ahead_behind(repo, local, up)),
                        Some((local, up)) => (Some((local.is_some(), up.is_some())), None),
                        None => (None, None),
                    };
                    branch_state(Some(h), false, tips, compared)
                },
            }
        },
    }
}

/// Ahead count, behind count and whether the branch is local-only: the
/// compared counts where the upstream was resolved and compared, else
/// `(0, 0, true)`.
pub open spec fn divergence_of(b: BranchState) -> (usize, usize, bool) {
    match b {
        BranchState::OnBranch(Upstream::Compared(ahead, behind)) => (ahead, behind, false),
        _ => (0, 0, true),
    }
}

/// Without a resolvable upstream a branch is local-only with nothing ahead or
/// behind; a branch that reports anything ahead or behind has an upstream.
pub proof fn lemma_no_upstream_is_local_only(b: BranchState)
    ensures
        divergence_of(BranchState::OnBranch(Upstream::Missing)) == (0usize, 0usize, true),
        divergence_of(BranchState::Detached) == (0usize, 0usize, true),
        divergence_of(b).2 ==> divergence_of(b).0 == 0 && divergence_of(b).1 == 0,
        (divergence_of(b).0 > 0 || divergence_of(b).1 > 0) ==> !divergence_of(b).2,
{
}

/// Ahead count, behind count and local-only flag for a branch state.
pub fn divergence(b: BranchState) -> (r: (usize, usize, bool))
    ensures
        r == divergence_of(b),
{
    match b {
        BranchState::OnBranch(Upstream::Compared(ahead, behind)) => (ahead, behind, false),
        _ => (0, 0, true),
    }
}

/// The number of commits ahead of and behind the upstream, and whether the
/// branch is local-only; `(0, 0, true)` where no upstream can be resolved or
/// compared.
pub fn get_ahead_behind_and_local_status(repo: &Repository) -> (r: (usize, usize, bool))
    ensures
        exists|head: Option<RefFacts>, unborn: bool, tips: Option<(bool, bool)>, compared: Option<(usize, usize)>|
            r == divergence_of(branch_state_of(head, unborn, tips, compared)),
        r.2 ==> r.0 == 0 && r.1 == 0,
{
    divergence(read_branch_state(repo))
}

/// The commit total from what was read: the walked count where HEAD names a
/// commit and the walk succeeded, else 0.
pub open spec fn commit_total_of(head_tip_found: bool, walked: Option<usize>) -> usize {
    if head_tip_found {
        match walked {
            Some(n) => n,
            None => 0,
        }
    } else {
        0
    }
}

/// The commit total from what was read.
pub fn commit_total(head_tip_found: bool, walked: Option<usize>) -> (r: usize)
    ensures
        r == commit_total_of(head_tip_found, walked),
{
    if head_tip_found {
        match walked {
            Some(n) => n,
            None => 0,
        }
    } else {
        0
    }
}

/// The number of commits reachable from HEAD; 0 where HEAD names no commit or
/// the history cannot be walked.
pub fn get_total_commits(repo: &Repository) -> (r: usize)
    ensures
        exists|head_tip_found: bool, walked: Option<usize>| r == commit_total_of(head_tip_found, walked),
{
    let tip = match read_head(repo) {
        Some(h) => h.target,
        None => None,
    };
    let walked = match tip {
        Some(t) => reachable_commits(repo, t),
        None => None,
    };
    commit_total(tip.is_some(), walked)
}

/// The remote that a repository is compared with: "origin" where it
/// exists, else the first one listed.
pub open spec fn preferred_remote(origin_exists: bool, first: Option<Seq<char>>) -> Option<Seq<char>> {
    if origin_exists {
        Some("origin"@)
    } else {
        first
    }
}

/// The remote to use, from whether "origin" exists and the first remote listed.
pub fn preferred_remote_name(origin_found: bool, first: Option<String>) -> (r: Option<String>)
    ensures
        opt_view(r) == preferred_remote(origin_found, opt_view(first)),
{
    if origin_found {
        Some(string_of("origin"))
    } else {
        first
    }
}

/// The name of the remote to use, preferring "origin"; `None` where the
/// repository has no remote.
pub fn get_remote_name(repo: &Repository) -> (r: Option<String>)
    ensures
        exists|o: bool, first: Option<Seq<char>>| opt_view(r) == preferred_remote(o, first),
{
    let origin_found = find_remote_url(repo, "origin").is_some();
    let first = if origin_found { None } else { first_remote_name(repo) };
    preferred_remote_name(origin_found, first)
}

/// The URL of the remote that `preferred` names: `None` where no remote is
/// preferred, where it cannot be found, or where it has no URL.
pub open spec fn remote_url_of(preferred: Option<Seq<char>>, found: Option<Option<Seq<char>>>) -> Option<Seq<char>> {
    match preferred {
        None => None,
        Some(_) => match found {
            Some(url) => url,
            None => None,
        },
    }
}

/// The URL of the preferred remote (origin first, else the first listed),
/// where it has one.
pub fn get_remote_url(repo: &Repository) -> (r: Option<String>)
    ensures
        exists|o: bool, first: Option<Seq<char>>, found: Option<Option<Seq<char>>>|
            opt_view(r) == remote_url_of(preferred_remote(o, first), found),
{
    let name = get_remote_name(repo);
    let ghost pick = choose|o: bool, first: Option<Seq<char>>| opt_view(name) == preferred_remote(o, first);
    match name {
        None => {
            assert(opt_view(None::<String>) == remote_url_of(preferred_remote(pick.0, pick.1), None));
            None
        },
        Some(n) => {
            let found = find_remote_url(repo, n.as_str());
            let ghost fv = opt_opt_view(found);
            let r = match found {
                Some(url) => url,
                None => None,
            };
            assert(opt_view(r) == remote_url_of(preferred_remote(pick.0, pick.1), fv));
            r
        },
    }
}

/// A repository's name as given by its remote URL: the URL without trailing
/// `/`, then without a trailing `.git`, cut after its last `/`; `None` where
/// that is empty.
pub open spec fn url_name(url: Seq<char>) -> Option<Seq<char>> {
    let name = after_last(without_suffix(trim_end(url, '/'), ".git"@), '/');
    if name.len() == 0 { None } else { Some(name) }
}

/// The repository name that a remote URL gives, `None` where it gives none.
pub fn name_from_url(url: &str) -> (r: Option<String>)
    ensures
        opt_view(r) == url_name(url@),
{
    let trimmed = trim_end_char(url, '/');
    let bare = strip_suffix(trimmed.as_str(), ".git");
    let name = segment_after_last(bare.as_str(), '/');
    if name.unicode_len() == 0 {
        None
    } else {
        Some(name)
    }
}

/// The name under which a repository is reported: the one its remote URL
/// gives, else the directory name.
pub open spec fn display_name_of(url: Option<Seq<char>>, dir_name: Seq<char>) -> Seq<char> {
    match url {
        Some(u) => match url_name(u) {
            Some(n) => n,
            None => dir_name,
        },
        None => dir_name,
    }
}

/// The name under which a repository is reported.
pub fn display_name(url: Option<&String>, dir_name: &str) -> (r: String)
    ensures
        r@ == display_name_of(match url { Some(u) => Some(u@), None => None }, dir_name@),
{
    match url {
        Some(u) => match name_from_url(u.as_str()) {
            Some(n) => n,
            None => string_of(dir_name),
        },
        None => string_of(dir_name),
    }
}

/// The name derived from the preferred remote's URL, where there is one.
pub fn get_repo_name(repo: &Repository) -> (r: Option<String>)
    ensures
        r matches Some(n) ==> exists|u: Seq<char>| url_name(u) == Some(n@),
{
    let url = get_remote_url(repo)?;
    name_from_url(url.as_str())
}

/// The directory of a checkout, given its git directory: where the last
/// component (trailing `/` aside) is `.git`, what precedes it (`/` for a
/// component right under the root); the path unchanged otherwise.
pub open spec fn checkout_dir_of(git_dir: Seq<char>) -> Seq<char> {
    let t = trim_end(git_dir, '/');
    if after_last(t, '/') == ".git"@ {
        let k = crate::text::last_index_of(t, '/');
        if k > 0 {
            t.subrange(0, k)
        } else if k == 0 {
            "/"@
        } else {
            Seq::empty()
        }
    } else {
        git_dir
    }
}

/// The checkout directory for a git directory.
pub fn checkout_dir(git_dir: &str) -> (r: String)
    ensures
        r@ == checkout_dir_of(git_dir@),
{
    let t = trim_end_char(git_dir, '/');
    let last = segment_after_last(t.as_str(), '/');
    let dot_git = string_of(".git");
    proof {
        crate::text::lemma_last_index_bounds(t@, '/');
    }
    if last == dot_git {
        match crate::text::find_last(t.as_str(), '/') {
            Some(k) => if k > 0 {
                String::from_str(t.as_str().substring_char(0, k))
            } else {
                string_of("/")
            },
            None => String::new(),
        }
    } else {
        string_of(git_dir)
    }
}

/// The repository's checkout directory.
pub fn get_repo_path(repo: &Repository) -> (r: String)
    ensures
        exists|d: Seq<char>| r@ == checkout_dir_of(d),
{
    let d = git_dir(repo);
    checkout_dir(d.as_str())
}

/// The number of stash entries; 0 where the stash cannot be listed.
pub fn get_stash_count(repo: &mut Repository) -> (r: usize) {
    match stash_len(repo) {
        Some(n) => n,
        None => 0,
    }
}

/// The publication status of HEAD's branch: `Detached` off a branch;
/// `Unpublished` without an upstream (tracking) branch; `Unpushed` with
/// commits the upstream lacks; `Clean` otherwise; `Unknown` where HEAD or
/// the comparison cannot be read.
pub open spec fn push_status_of(b: BranchState) -> Status {
    match b {
        BranchState::Unreadable => Status::Unknown,
        BranchState::Detached => Status::Detached,
        BranchState::OnBranch(Upstream::Missing) => Status::Unpublished,
        BranchState::OnBranch(Upstream::Compared(ahead, _)) => if ahead > 0 {
            Status::Unpushed
        } else {
            Status::Clean
        },
        BranchState::OnBranch(Upstream::CompareFailed) => Status::Unknown,
    }
}

/// The publication status of HEAD's branch for a branch state.
pub fn push_status(b: BranchState) -> (r: Status)
    ensures
        r == push_status_of(b),
        is_push_status(r),
{
    match b {
        BranchState::Unreadable => Status::Unknown,
        BranchState::Detached => Status::Detached,
        BranchState::OnBranch(Upstream::Missing) => Status::Unpublished,
        BranchState::OnBranch(Upstream::Compared(ahead, _)) => if ahead > 0 {
            Status::Unpushed
        } else {
            Status::Clean
        },
        BranchState::OnBranch(Upstream::CompareFailed) => Status::Unknown,
    }
}

/// Whether HEAD's branch is published and pushed, from one resolution of its
/// upstream.
pub fn get_branch_push_status(repo: &Repository) -> (r: Status)
    ensures
        is_push_status(r),
        exists|head: Option<RefFacts>, unborn: bool, tips: Option<(bool, bool)>, compared: Option<(usize, usize)>|
            r == push_status_of(branch_state_of(head, unborn, tips, compared)),
{
    push_status(read_branch_state(repo))
}

/// Whether a fast-forward may be made: HEAD is a branch, its upstream's tip
/// was found, and the merge analysis says fast-forward and the configuration
/// does not forbid it.
pub open spec fn fast_forward_permitted(head_is_branch: bool, upstream_tip_found: bool, analysis: Option<(bool, bool)>) -> bool {
    head_is_branch && upstream_tip_found && analysis == Some((true, false))
}

/// Whether a fast-forward was made: it was permitted and moving the branch
/// succeeded.
pub open spec fn fast_forward_outcome_of(
    head_is_branch: bool,
    upstream_tip_found: bool,
    analysis: Option<(bool, bool)>,
    moved: Option<bool>,
) -> bool {
    fast_forward_permitted(head_is_branch, upstream_tip_found, analysis) && moved == Some(true)
}

/// Whether a fast-forward may be made, from what was read.
pub fn fast_forward_allowed(head_is_branch: bool, upstream_tip_found: bool, analysis: Option<(bool, bool)>) -> (r: bool)
    ensures
        r == fast_forward_permitted(head_is_branch, upstream_tip_found, analysis),
{
    head_is_branch && upstream_tip_found && analysis == Some((true, false))
}

/// Whether a fast-forward was made, from what was read and the outcome of
/// moving the branch (`None` where no move was tried).
pub fn fast_forward_outcome(
    head_is_branch: bool,
    upstream_tip_found: bool,
    analysis: Option<(bool, bool)>,
    moved: Option<bool>,
) -> (r: bool)
    ensures
        r == fast_forward_outcome_of(head_is_branch, upstream_tip_found, analysis, moved),
{
    fast_forward_allowed(head_is_branch, upstream_tip_found, analysis) && moved == Some(true)
}

/// Fast-forwards HEAD's branch to its upstream where that is a strict
/// fast-forward that the configuration allows; whether it did. The branch is
/// moved only where that is permitted; every failure on the way gives `false`.
pub fn merge_ff(repo: &Repository) -> (r: bool)
    ensures
        exists|b: bool, u: bool, a: Option<(bool, bool)>, m: Option<bool>|
            r == fast_forward_outcome_of(b, u, a, m)
                && (m is Some ==> fast_forward_permitted(b, u, a)),
{
    let mut head_is_branch = false;
    let mut upstream: Option<git2::Oid> = None;
    if let Some(h) = read_head(repo) {
        head_is_branch = h.is_branch;
        if h.is_branch {
            if let Some(name) = &h.shorthand {
                if let Some((_, up)) = upstream_tips(repo, name.as_str()) {
                    upstream = up;
                }
            }
        }
    }
    let analysis = match upstream {
        Some(up) => merge_analysis(repo, up),
        None => None,
    };
    let found = upstream.is_some();
    let moved = if fast_forward_allowed(head_is_branch, found, analysis) {
        match upstream {
            Some(up) => Some(fast_forward_to(repo, up)),
            None => None,
        }
    } else {
        None
    };
    fast_forward_outcome(head_is_branch, found, analysis, moved)
}

} // verus!
