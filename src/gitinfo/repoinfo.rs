//! The per-repository report.
use vstd::prelude::*;
use git2::Repository;
use crate::git_ops::RefFacts;
use crate::gitinfo::status::{classification, status_label, RepoState, Status};
use crate::gitinfo::{
    branch_label_of, checkout_dir_of, commit_total_of, display_name, display_name_of, divergence,
    divergence_of, fast_forward_outcome_of, fast_forward_permitted, get_branch_name,
    get_remote_url, get_repo_path, get_stash_count, get_total_commits, merge_ff,
    preferred_remote, push_status_of, read_branch_state, remote_url_of, BranchState,
};
use crate::text::{decimal, decimal_string, join2, opt_view, string_of};

verus! {

/// The status report of one repository, created once per successful scan of it.
#[derive(Clone, Debug)]
pub struct RepoInfo {
    /// The name from the remote URL, else the directory name.
    pub name: String,
    /// The current branch name, or a label that says why there is none.
    pub branch: String,
    /// Commits on the branch that its upstream lacks.
    pub ahead: usize,
    /// Commits on the upstream that the branch lacks.
    pub behind: usize,
    /// Commits reachable from HEAD.
    pub commits: usize,
    /// The classified status.
    pub status: Status,
    /// Whether the branch is ahead of its upstream.
    pub has_unpushed: bool,
    /// The preferred remote's URL, where it was asked for and exists.
    pub remote_url: Option<String>,
    /// The checkout directory.
    pub path: String,
    /// The number of stash entries.
    pub stash_count: usize,
    /// Whether the branch has no resolvable upstream.
    pub is_local_only: bool,
    /// Whether a fast-forward to the upstream was made; `None` where none was asked for.
    pub fast_forwarded: Option<bool>,
}

/// Why a repository that opened could not be reported.
#[derive(Clone, Copy, Debug, PartialEq, Eq, Structural)]
pub enum ReportError {
    /// A fetch was asked for and failed.
    FetchFailed,
}

/// The text of the local column: `local-only`, or the ahead and behind counts.
pub open spec fn local_status_text(info: RepoInfo) -> Seq<char> {
    if info.is_local_only {
        "local-only"@
    } else {
        "↑"@ + decimal(info.ahead as nat) + " ↓"@ + decimal(info.behind as nat)
    }
}

/// The status text, followed by the stash count where there are stashes.
pub open spec fn status_with_stash_text(info: RepoInfo) -> Seq<char> {
    if info.stash_count > 0 {
        status_label(info.status) + " ("@ + decimal(info.stash_count as nat) + "*)"@
    } else {
        status_label(info.status)
    }
}

/// How the fields of a report relate to one another, whatever was read: the
/// divergence counts and the status come from one branch state, so the
/// status agrees with the local-only flag and the ahead count.
pub open spec fn report_consistent(info: RepoInfo) -> bool {
    &&& info.has_unpushed == (info.ahead > 0)
    &&& exists|b: BranchState, state: RepoState, changes: Option<nat>|
            (info.ahead, info.behind, info.is_local_only) == divergence_of(b)
            && info.status == classification(state, changes, push_status_of(b))
    &&& info.status == Status::Unpushed ==> !info.is_local_only && info.ahead > 0
    &&& (info.status == Status::Unpublished || info.status == Status::Detached) ==> info.is_local_only
    &&& info.status == Status::Clean ==> info.ahead == 0
}

/// A status and divergence taken from one branch state agree: `Unpushed`
/// only with an upstream and commits ahead, `Unpublished` and `Detached`
/// only when local-only, `Clean` only with nothing ahead.
pub proof fn lemma_status_agrees_with_divergence(b: BranchState, state: RepoState, changes: Option<nat>)
    ensures
        ({
            let s = classification(state, changes, push_status_of(b));
            let d = divergence_of(b);
            &&& s == Status::Unpushed ==> !d.2 && d.0 > 0
            &&& (s == Status::Unpublished || s == Status::Detached) ==> d.2
            &&& s == Status::Clean ==> d.0 == 0
        }),
{
}

impl RepoInfo {
    /// Reads a repository into a report. `fetched` is the outcome of the fetch
    /// made before, `None` where none was asked for; a failed fetch fails the
    /// repository. Where `fast_forward` is set, and no fetch failed, the
    /// branch is fast-forwarded to its upstream first where that is allowed.
    pub fn new(
        repo: &mut Repository,
        name: &str,
        show_remote: bool,
        fetched: Option<bool>,
        fast_forward: bool,
    ) -> (r: Result<RepoInfo, ReportError>)
        ensures
            r is Err <==> fetched == Some(false),
            r matches Ok(info) ==> {
                &&& report_consistent(info)
                &&& (info.fast_forwarded is Some) == fast_forward
                &&& !show_remote ==> info.remote_url is None
                &&& exists|o: bool, first: Option<Seq<char>>, found: Option<Option<Seq<char>>>|
                    info.name@ == display_name_of(remote_url_of(preferred_remote(o, first), found), name@)
                    && (show_remote ==> opt_view(info.remote_url)
                        == remote_url_of(preferred_remote(o, first), found))
                &&& exists|h: Option<RefFacts>, sym: Option<Seq<char>>| info.branch@ == branch_label_of(h, sym)
                &&& exists|d: Seq<char>| info.path@ == checkout_dir_of(d)
                &&& exists|t: bool, w: Option<usize>| info.commits == commit_total_of(t, w)
                &&& info.fast_forwarded matches Some(done) ==> exists|b: bool, u: bool, a: Option<(bool, bool)>, m: Option<bool>|
                    done == fast_forward_outcome_of(b, u, a, m) && (m is Some ==> fast_forward_permitted(b, u, a))
            },
    {
        if fetched == Some(false) {
            return Err(ReportError::FetchFailed);
        }
        let fast_forwarded = if fast_forward { Some(merge_ff(repo)) } else { None };
        let url = get_remote_url(repo);
        let ghost url_view = opt_view(url);
        let display = display_name(url.as_ref(), name);
        proof {
            let (o, first, found) = choose|o: bool, first: Option<Seq<char>>, found: Option<Option<Seq<char>>>|
                opt_view(url) == remote_url_of(preferred_remote(o, first), found);
            assert(display@ == display_name_of(remote_url_of(preferred_remote(o, first), found), name@));
        }
        let name = display;
        let branch = get_branch_name(repo);
        let branch_state = read_branch_state(repo);
        let (ahead, behind, is_local_only) = divergence(branch_state);
        let commits = get_total_commits(repo);
        let status = Status::with_branch(repo, branch_state);
        proof {
            let (st, ch) = choose|st: RepoState, ch: Option<nat>|
                status == classification(st, ch, push_status_of(branch_state));
            lemma_status_agrees_with_divergence(branch_state, st, ch);
        }
        let remote_url = if show_remote { url } else { None };
        assert(show_remote ==> opt_view(remote_url) == url_view);
        let path = get_repo_path(repo);
        let stash_count = get_stash_count(repo);
        Ok(RepoInfo {
            name,
            branch,
            ahead,
            behind,
            commits,
            status,
            has_unpushed: ahead > 0,
            remote_url,
            path,
            stash_count,
            is_local_only,
            fast_forwarded,
        })
    }

    /// The local column: `local-only`, or `↑<ahead> ↓<behind>`.
    pub fn format_local_status(&self) -> (r: String)
        ensures
            r@ == local_status_text(*self),
    {
        if self.is_local_only {
            string_of("local-only")
        } else {
            let a = decimal_string(self.ahead);
            let b = decimal_string(self.behind);
            let s = join2("↑", a.as_str());
            let s = join2(s.as_str(), " ↓");
            join2(s.as_str(), b.as_str())
        }
    }

    /// The status text, with ` (<n>*)` appended where there are `n > 0` stashes.
    pub fn format_status_with_stash(&self) -> (r: String)
        ensures
            r@ == status_with_stash_text(*self),
    {
        let label = self.status.to_string();
        if self.stash_count > 0 {
            let n = decimal_string(self.stash_count);
            let s = join2(label.as_str(), " (");
            let s = join2(s.as_str(), n.as_str());
            join2(s.as_str(), "*)")
        } else {
            label
        }
    }
}

} // verus!
