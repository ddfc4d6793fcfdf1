//! Discovery decisions and fault-isolated aggregation of a scan.
use vstd::prelude::*;
use git2::Repository;
use crate::git_ops::open_repository;
use crate::gitinfo::repoinfo::{report_consistent, RepoInfo};
use crate::util::{dir_name, dir_name_of};

verus! {

/// The walk depth that a depth setting asks for: `None` for an unbounded
/// walk (any negative setting), else the number of levels below the root
/// (0 and 1 both mean the root and its immediate children).
pub open spec fn max_depth_of(depth: i32) -> Option<usize> {
    if depth < 0 {
        None
    } else if depth == 0 {
        Some(1)
    } else {
        Some(depth as usize)
    }
}

/// The walk depth for a depth setting.
pub fn max_depth_for(depth: i32) -> (r: Option<usize>)
    ensures
        r == max_depth_of(depth),
{
    if depth < 0 {
        None
    } else if depth == 0 {
        Some(1)
    } else {
        Some(depth as usize)
    }
}

/// A depth of 0 and a depth of 1 both walk the root and its immediate
/// children and no deeper; a negative depth walks without bound.
pub proof fn lemma_root_only_depth(depth: i32)
    ensures
        max_depth_of(0) == Some(1usize),
        max_depth_of(1) == Some(1usize),
        depth < 0 ==> max_depth_of(depth) is None,
        depth > 0 ==> max_depth_of(depth) == Some(depth as usize),
{
}

/// The repository root of a discovered directory: the directory itself where
/// it is a repository, else its configured subdirectory where that is one;
/// `None` where neither is (the directory is then no candidate).
pub open spec fn effective_root_of(
    entry: Seq<char>,
    entry_is_repo: bool,
    subdir_path: Option<Seq<char>>,
    subdir_is_repo: bool,
) -> Option<Seq<char>> {
    if entry_is_repo {
        Some(entry)
    } else {
        match subdir_path {
            Some(p) => if subdir_is_repo { Some(p) } else { None },
            None => None,
        }
    }
}

/// The repository root of a discovered directory, `None` where it is no candidate.
pub fn effective_root(
    entry: &str,
    entry_is_repo: bool,
    subdir_path: Option<&String>,
    subdir_is_repo: bool,
) -> (r: Option<String>)
    ensures
        crate::text::opt_view(r) == effective_root_of(
            entry@,
            entry_is_repo,
            match subdir_path { Some(p) => Some(p@), None => None },
            subdir_is_repo,
        ),
{
    if entry_is_repo {
        Some(String::from_str(entry))
    } else {
        match subdir_path {
            Some(p) => if subdir_is_repo { Some(p.clone()) } else { None },
            None => None,
        }
    }
}

/// What the scan of one candidate gave.
#[derive(Clone, Debug)]
pub enum ScanOutcome {
    /// The repository was read into a report.
    Found(RepoInfo),
    /// The repository could not be opened or read; its name.
    Failed(String),
}

/// Opens the repository at a candidate root.
pub fn open_candidate(root: &str) -> (r: Option<Repository>) {
    open_repository(root)
}

/// Scans one candidate that was opened (or failed to open) at `root`.
/// `entry_name` is the discovered directory's name; `fetched` the outcome of
/// the fetch made after opening, `None` where none was asked for.
pub fn scan_candidate(
    opened: Option<Repository>,
    root: &str,
    entry_name: &str,
    show_remote: bool,
    fetched: Option<bool>,
    fast_forward: bool,
) -> (r: ScanOutcome)
    ensures
        opened is None ==> (r matches ScanOutcome::Failed(n) && n@ == dir_name_of(root@)),
        opened is Some && fetched == Some(false) ==> (r matches ScanOutcome::Failed(n) && n@ == entry_name@),
        opened is Some && fetched != Some(false) ==> r is Found,
        r matches ScanOutcome::Found(info) ==> report_consistent(info),
{
    match opened {
        None => ScanOutcome::Failed(dir_name(root)),
        Some(mut repo) => match RepoInfo::new(&mut repo, entry_name, show_remote, fetched, fast_forward) {
            Ok(info) => ScanOutcome::Found(info),
            Err(_) => ScanOutcome::Failed(String::from_str(entry_name)),
        },
    }
}

/// The reports among the outcomes, in order.
pub open spec fn found_of(s: Seq<ScanOutcome>) -> Seq<RepoInfo>
    decreases s.len(),
{
    if s.len() == 0 {
        Seq::empty()
    } else {
        match s.last() {
            ScanOutcome::Found(info) => found_of(s.drop_last()).push(info),
            ScanOutcome::Failed(_) => found_of(s.drop_last()),
        }
    }
}

/// The failed names among the outcomes, in order.
pub open spec fn failed_of(s: Seq<ScanOutcome>) -> Seq<String>
    decreases s.len(),
{
    if s.len() == 0 {
        Seq::empty()
    } else {
        match s.last() {
            ScanOutcome::Found(_) => failed_of(s.drop_last()),
            ScanOutcome::Failed(n) => failed_of(s.drop_last()).push(n),
        }
    }
}

/// Every scanned candidate lands in exactly one of the two result lists:
/// together they hold as many entries as there were candidates.
pub proof fn lemma_scan_totality(s: Seq<ScanOutcome>)
    ensures
        found_of(s).len() + failed_of(s).len() == s.len(),
    decreases s.len(),
{
    if s.len() > 0 {
        lemma_scan_totality(s.drop_last());
    }
}

/// Splits the outcomes of a scan into the reports and the failed names,
/// each in the order of the outcomes; every outcome goes to exactly one of them.
pub fn collect_outcomes(outcomes: Vec<ScanOutcome>) -> (r: (Vec<RepoInfo>, Vec<String>))
    ensures
        r.0@ == found_of(outcomes@),
        r.1@ == failed_of(outcomes@),
        r.0@.len() + r.1@.len() == outcomes@.len(),
{
    let ghost all = outcomes@;
    let n = outcomes.len();
    let mut rest = outcomes;
    let mut found: Vec<RepoInfo> = Vec::new();
    let mut failed: Vec<String> = Vec::new();
    let mut i: usize = 0;
    while rest.len() > 0
        invariant
            i + rest@.len() == all.len(),
            all.len() == n,
            rest@ == all.subrange(i as int, all.len() as int),
            found@ == found_of(all.subrange(0, i as int)),
            failed@ == failed_of(all.subrange(0, i as int)),
        decreases rest@.len(),
    {
        let o = rest.remove(0);
        proof {
            assert(all.subrange(0, i + 1).drop_last() == all.subrange(0, i as int));
            assert(all.subrange(0, i + 1).last() == o);
        }
        match o {
            ScanOutcome::Found(info) => found.push(info),
            ScanOutcome::Failed(n) => failed.push(n),
        }
        i = i + 1;
    }
    proof {
        assert(all.subrange(0, all.len() as int) == all);
        lemma_scan_totality(all);
    }
    (found, failed)
}

} // verus!
