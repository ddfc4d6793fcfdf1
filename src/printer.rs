//! What the rendering layer shows besides the table: the failed list and the
//! summary counts.
use vstd::prelude::*;
use crate::gitinfo::repoinfo::RepoInfo;
use crate::gitinfo::status::Status;
use crate::text::{join2, string_of};

verus! {

/// The heading of the list of repositories that failed.
pub open spec fn failed_heading() -> Seq<char> {
    "Failed to process the following repositories:"@
}

/// The warning lines for the repositories that failed: none where none did,
/// else a heading and one ` - <name>` line per repository.
pub open spec fn failed_lines(failed: Seq<String>) -> Seq<Seq<char>> {
    if failed.len() == 0 {
        Seq::empty()
    } else {
        seq![failed_heading()] + Seq::new(failed.len(), |i: int| " - "@ + failed[i]@)
    }
}

/// The warning lines that report the repositories that could not be processed.
pub fn failed_summary(failed_repos: &Vec<String>) -> (r: Vec<String>)
    ensures
        r@.len() == failed_lines(failed_repos@).len(),
        forall|i: int| 0 <= i < r@.len() ==> #[trigger] r@[i]@ == failed_lines(failed_repos@)[i],
{
    let mut lines: Vec<String> = Vec::new();
    if failed_repos.len() == 0 {
        return lines;
    }
    lines.push(string_of("Failed to process the following repositories:"));
    let mut i: usize = 0;
    while i < failed_repos.len()
        invariant
            i <= failed_repos@.len(),
            failed_repos@.len() > 0,
            lines@.len() == i + 1,
            lines@[0]@ == failed_heading(),
            forall|j: int| 0 <= j < i ==> #[trigger] lines@[j + 1]@ == " - "@ + failed_repos@[j]@,
        decreases failed_repos@.len() - i,
    {
        lines.push(join2(" - ", failed_repos[i].as_str()));
        i = i + 1;
    }
    proof {
        let want = failed_lines(failed_repos@);
        assert forall|k: int| 0 <= k < lines@.len() implies #[trigger] lines@[k]@ == want[k] by {
            if k > 0 {
                assert(lines@[(k - 1) + 1]@ == " - "@ + failed_repos@[k - 1]@);
            }
        }
    }
    lines
}

/// Counts shown in the summary of a scan.
#[derive(Clone, Copy, Debug, PartialEq, Eq, Structural)]
pub struct Summary {
    pub total: usize,
    pub clean: usize,
    pub dirty: usize,
    pub unpushed: usize,
    pub with_stashes: usize,
    pub local_only: usize,
    pub failed: usize,
}

/// The number of reports that satisfy `p`.
pub open spec fn count_where(repos: Seq<RepoInfo>, p: spec_fn(RepoInfo) -> bool) -> nat
    decreases repos.len(),
{
    if repos.len() == 0 {
        0
    } else {
        count_where(repos.drop_last(), p) + if p(repos.last()) { 1nat } else { 0nat }
    }
}

pub open spec fn is_clean(r: RepoInfo) -> bool {
    r.status == Status::Clean
}

pub open spec fn is_dirty(r: RepoInfo) -> bool {
    r.status is Dirty
}

pub open spec fn is_unpushed(r: RepoInfo) -> bool {
    r.has_unpushed
}

pub open spec fn has_stashes(r: RepoInfo) -> bool {
    r.stash_count > 0
}

pub open spec fn is_local(r: RepoInfo) -> bool {
    r.is_local_only
}

proof fn lemma_count_le(repos: Seq<RepoInfo>, p: spec_fn(RepoInfo) -> bool)
    ensures
        count_where(repos, p) <= repos.len(),
    decreases repos.len(),
{
    if repos.len() > 0 {
        lemma_count_le(repos.drop_last(), p);
    }
}

/// The summary counts of a scan: all reports, the clean ones, those with
/// changes, with unpushed commits, with stashes, on local-only branches, and
/// the number of failed repositories.
pub fn summary_counts(repos: &Vec<RepoInfo>, failed: usize) -> (r: Summary)
    ensures
        r.total == repos@.len(),
        r.clean == count_where(repos@, |x: RepoInfo| is_clean(x)),
        r.dirty == count_where(repos@, |x: RepoInfo| is_dirty(x)),
        r.unpushed == count_where(repos@, |x: RepoInfo| is_unpushed(x)),
        r.with_stashes == count_where(repos@, |x: RepoInfo| has_stashes(x)),
        r.local_only == count_where(repos@, |x: RepoInfo| is_local(x)),
        r.failed == failed,
{
    let mut s = Summary {
        total: repos.len(),
        clean: 0,
        dirty: 0,
        unpushed: 0,
        with_stashes: 0,
        local_only: 0,
        failed,
    };
    let mut i: usize = 0;
    while i < repos.len()
        invariant
            i <= repos@.len(),
            s.total == repos@.len(),
            s.failed == failed,
            s.clean == count_where(repos@.subrange(0, i as int), |x: RepoInfo| is_clean(x)),
            s.dirty == count_where(repos@.subrange(0, i as int), |x: RepoInfo| is_dirty(x)),
            s.unpushed == count_where(repos@.subrange(0, i as int), |x: RepoInfo| is_unpushed(x)),
            s.with_stashes == count_where(repos@.subrange(0, i as int), |x: RepoInfo| has_stashes(x)),
            s.local_only == count_where(repos@.subrange(0, i as int), |x: RepoInfo| is_local(x)),
        decreases repos@.len() - i,
    {
        let ghost pre = repos@.subrange(0, i as int);
        let ghost next = repos@.subrange(0, i + 1);
        proof {
            assert(next.drop_last() == pre);
            lemma_count_le(pre, |x: RepoInfo| is_clean(x));
            lemma_count_le(pre, |x: RepoInfo| is_dirty(x));
            lemma_count_le(pre, |x: RepoInfo| is_unpushed(x));
            lemma_count_le(pre, |x: RepoInfo| has_stashes(x));
            lemma_count_le(pre, |x: RepoInfo| is_local(x));
        }
        let r = &repos[i];
        if r.status == Status::Clean {
            s.clean = s.clean + 1;
        }
        if let Status::Dirty(_) = r.status {
            s.dirty = s.dirty + 1;
        }
        if r.has_unpushed {
            s.unpushed = s.unpushed + 1;
        }
        if r.stash_count > 0 {
            s.with_stashes = s.with_stashes + 1;
        }
        if r.is_local_only {
            s.local_only = s.local_only + 1;
        }
        i = i + 1;
    }
    proof {
        assert(repos@.subrange(0, repos@.len() as int) == repos@);
    }
    s
}

} // verus!
