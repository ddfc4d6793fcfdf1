//! The status of a repository and the priority-ordered rules that classify it.
use vstd::prelude::*;
use git2::Repository;
use crate::git_ops::{repo_state, status_flags};
use crate::gitinfo::{push_status, push_status_of, read_branch_state, BranchState};
use crate::text::{decimal, decimal_string, join2, string_of};

verus! {

/// The status of a git repository; exactly one holds at a time.
#[derive(Clone, Copy, Debug, PartialEq, Eq, Structural)]
pub enum Status {
    /// No changes and no unpushed commits.
    Clean,
    /// The working tree has changes; the payload counts the changed entries.
    Dirty(usize),
    /// A merge is in progress.
    Merge,
    /// A revert is in progress.
    Revert,
    /// A rebase is in progress.
    Rebase,
    /// A bisect is in progress.
    Bisect,
    /// A cherry-pick is in progress.
    CherryPick,
    /// The branch has commits that its remote counterpart lacks.
    Unpushed,
    /// The branch has no counterpart on the remote.
    Unpublished,
    /// HEAD does not point at a branch.
    Detached,
    /// The state could not be interpreted.
    Unknown,
}

/// The text shown for a status.
pub open spec fn status_label(s: Status) -> Seq<char> {
    match s {
        Status::Clean => "Clean"@,
        Status::Dirty(n) => "Dirty ("@ + decimal(n as nat) + ")"@,
        Status::Merge => "Merge"@,
        Status::Revert => "Revert"@,
        Status::Rebase => "Rebase"@,
        Status::Bisect => "Bisect"@,
        Status::CherryPick => "Cherry Pick"@,
        Status::Unpushed => "Unpushed"@,
        Status::Unpublished => "Unpublished"@,
        Status::Detached => "Detached"@,
        Status::Unknown => "Unknown"@,
    }
}

/// The human-readable explanation of a status.
pub open spec fn status_description(s: Status) -> Seq<char> {
    match s {
        Status::Clean => "No changes, no unpushed commits."@,
        Status::Dirty(_) => "Working directory has changes."@,
        Status::Merge => "Merge in progress."@,
        Status::Revert => "Revert in progress."@,
        Status::Rebase => "Rebase in progress."@,
        Status::Bisect => "Bisecting in progress."@,
        Status::CherryPick => "Cherry-pick in progress."@,
        Status::Unpushed => "There are unpushed commits."@,
        Status::Unpublished => "The branch is not published."@,
        Status::Detached => "The repository is in a detached HEAD state or has no upstream branch."@,
        Status::Unknown => "Status is unknown or not recognized."@,
    }
}

impl Status {
    /// The text shown for this status, e.g. `Dirty (3)`.
    pub fn to_string(&self) -> (r: String)
        ensures
            r@ == status_label(*self),
    {
        match self {
            Status::Clean => string_of("Clean"),
            Status::Dirty(n) => {
                let digits = decimal_string(*n);
                let head = join2("Dirty (", digits.as_str());
                join2(head.as_str(), ")")
            },
            Status::Merge => string_of("Merge"),
            Status::Revert => string_of("Revert"),
            Status::Rebase => string_of("Rebase"),
            Status::Bisect => string_of("Bisect"),
            Status::CherryPick => string_of("Cherry Pick"),
            Status::Unpushed => string_of("Unpushed"),
            Status::Unpublished => string_of("Unpublished"),
            Status::Detached => string_of("Detached"),
            Status::Unknown => string_of("Unknown"),
        }
    }

    /// A description of what this status means.
    pub fn description(&self) -> (r: &'static str)
        ensures
            r@ == status_description(*self),
    {
        match self {
            Status::Clean => "No changes, no unpushed commits.",
            Status::Dirty(_) => "Working directory has changes.",
            Status::Merge => "Merge in progress.",
            Status::Revert => "Revert in progress.",
            Status::Rebase => "Rebase in progress.",
            Status::Bisect => "Bisecting in progress.",
            Status::CherryPick => "Cherry-pick in progress.",
            Status::Unpushed => "There are unpushed commits.",
            Status::Unpublished => "The branch is not published.",
            Status::Detached => "The repository is in a detached HEAD state or has no upstream branch.",
            Status::Unknown => "Status is unknown or not recognized.",
        }
    }
}

impl Default for Status {
    /// The fallback status is `Unknown`.
    fn default() -> (r: Self)
        ensures
            r == Status::Unknown,
    {
        Status::Unknown
    }
}

impl Status {
    /// One status of each kind, in declaration order (`Dirty` with a count of 0).
    pub fn all() -> (r: Vec<Status>)
        ensures
            r@ == seq![
                Status::Clean, Status::Dirty(0), Status::Merge, Status::Revert, Status::Rebase,
                Status::Bisect, Status::CherryPick, Status::Unpushed, Status::Unpublished,
                Status::Detached, Status::Unknown,
            ],
    {
        vec![
            Status::Clean, Status::Dirty(0), Status::Merge, Status::Revert, Status::Rebase,
            Status::Bisect, Status::CherryPick, Status::Unpushed, Status::Unpublished,
            Status::Detached, Status::Unknown,
        ]
    }
}

/// An operation that git may have left in progress, as the repository reports it.
#[derive(Clone, Copy, Debug, PartialEq, Eq, Structural)]
pub enum RepoState {
    Clean,
    Merge,
    Revert,
    RevertSequence,
    CherryPick,
    CherryPickSequence,
    Bisect,
    Rebase,
    RebaseInteractive,
    RebaseMerge,
    ApplyMailbox,
    ApplyMailboxOrRebase,
}

/// The status that an operation in progress imposes, if any.
pub open spec fn state_status(state: RepoState) -> Option<Status> {
    match state {
        RepoState::Clean => None,
        RepoState::Merge => Some(Status::Merge),
        RepoState::Revert | RepoState::RevertSequence => Some(Status::Revert),
        RepoState::CherryPick | RepoState::CherryPickSequence => Some(Status::CherryPick),
        RepoState::Bisect => Some(Status::Bisect),
        RepoState::Rebase | RepoState::RebaseInteractive | RepoState::RebaseMerge => Some(Status::Rebase),
        RepoState::ApplyMailbox | RepoState::ApplyMailboxOrRebase => Some(Status::Unknown),
    }
}

/// git2's status flag for a file new in the index.
pub const INDEX_NEW: u32 = 1;
/// git2's status flag for a file modified in the index.
pub const INDEX_MODIFIED: u32 = 2;
/// git2's status flag for a file deleted in the index.
pub const INDEX_DELETED: u32 = 4;
/// git2's status flag for an untracked file.
pub const WT_NEW: u32 = 128;
/// git2's status flag for a file modified in the working tree.
pub const WT_MODIFIED: u32 = 256;
/// git2's status flag for a file deleted from the working tree.
pub const WT_DELETED: u32 = 512;
/// git2's status flag for an ignored file.
pub const IGNORED: u32 = 16384;
/// git2's status flag for a conflicted file.
pub const CONFLICTED: u32 = 32768;

/// The flags that make a status entry a change: new, modified, deleted
/// (in the index or the working tree) or conflicted.
pub const CHANGE_MASK: u32 = 33671;

/// Whether a status entry, given by its flag bits, counts as a change: it
/// carries a change flag and is not ignored.
pub open spec fn is_change(flags: u32) -> bool {
    flags & CHANGE_MASK != 0 && flags & IGNORED == 0
}

/// The number of entries that count as changes.
pub open spec fn change_count(entries: Seq<u32>) -> nat
    decreases entries.len(),
{
    if entries.len() == 0 {
        0
    } else {
        change_count(entries.drop_last()) + if is_change(entries.last()) { 1nat } else { 0nat }
    }
}

/// Priority-ordered classification. `changes` is the number of changed
/// entries in the working tree, or `None` where the tree could not be read;
/// `push` is the branch's publication status, consulted only for a tree
/// without changes.
pub open spec fn classification(state: RepoState, changes: Option<nat>, push: Status) -> Status {
    match state_status(state) {
        Some(s) => s,
        None => match changes {
            None => Status::Unknown,
            Some(n) => if n > 0 { Status::Dirty(n as usize) } else { push },
        },
    }
}

/// An operation in progress decides the status, whatever the working tree and
/// the branch show: a merge with working-tree changes is `Merge`, not `Dirty`.
pub proof fn lemma_operation_in_progress_dominates(state: RepoState, changes: Option<nat>, push: Status)
    requires
        state_status(state) is Some,
    ensures
        classification(state, changes, push) == state_status(state).unwrap(),
        classification(RepoState::Merge, changes, push) == Status::Merge,
{
}

/// The statuses that the publication check of a branch can give.
pub open spec fn is_push_status(s: Status) -> bool {
    s == Status::Clean || s == Status::Unpushed || s == Status::Unpublished
        || s == Status::Detached || s == Status::Unknown
}

/// The status imposed by an operation in progress, if any.
pub fn special_state_status(state: RepoState) -> (r: Option<Status>)
    ensures
        r == state_status(state),
{
    match state {
        RepoState::Clean => None,
        RepoState::Merge => Some(Status::Merge),
        RepoState::Revert | RepoState::RevertSequence => Some(Status::Revert),
        RepoState::CherryPick | RepoState::CherryPickSequence => Some(Status::CherryPick),
        RepoState::Bisect => Some(Status::Bisect),
        RepoState::Rebase | RepoState::RebaseInteractive | RepoState::RebaseMerge => Some(Status::Rebase),
        RepoState::ApplyMailbox | RepoState::ApplyMailboxOrRebase => Some(Status::Unknown),
    }
}

/// Counts the status entries that are changes.
pub fn count_changes(entries: &Vec<u32>) -> (r: usize)
    ensures
        r == change_count(entries@),
{
    let mut n: usize = 0;
    let mut i: usize = 0;
    while i < entries.len()
        invariant
            i <= entries@.len(),
            n == change_count(entries@.subrange(0, i as int)),
            n <= i,
        decreases entries@.len() - i,
    {
        proof {
            assert(entries@.subrange(0, i + 1).drop_last() == entries@.subrange(0, i as int));
        }
        if entries[i] & CHANGE_MASK != 0 && entries[i] & IGNORED == 0 {
            n = n + 1;
        }
        i = i + 1;
    }
    proof {
        assert(entries@.subrange(0, entries@.len() as int) == entries@);
    }
    n
}

impl Status {
    /// Classifies a repository from what was read of it: the operation in
    /// progress, the number of changed entries (`None` where the working tree
    /// could not be read) and the branch's publication status.
    pub fn classify(state: RepoState, changes: Option<usize>, push: Status) -> (r: Status)
        ensures
            r == classification(state, opt_nat(changes), push),
    {
        match special_state_status(state) {
            Some(s) => s,
            None => match changes {
                None => Status::Unknown,
                Some(n) => if n > 0 { Status::Dirty(n) } else { push },
            },
        }
    }
}

/// The optional count as a natural number.
pub open spec fn opt_nat(c: Option<usize>) -> Option<nat> {
    match c {
        Some(n) => Some(n as nat),
        None => None,
    }
}

impl Status {
    /// Classifies a repository whose branch state was already read. An
    /// operation in progress wins over the working tree; a tree with changes
    /// gives `Dirty` with their number; a tree without changes gives the
    /// branch's publication status; a tree that cannot be read gives `Unknown`.
    pub fn with_branch(repo: &Repository, branch: BranchState) -> (r: Status)
        ensures
            exists|state: RepoState, changes: Option<nat>|
                r == classification(state, changes, push_status_of(branch)),
    {
        let state = repo_state(repo);
        let push = push_status(branch);
        if special_state_status(state).is_some() {
            let r = Status::classify(state, None, push);
            assert(r == classification(state, None, push_status_of(branch)));
            return r;
        }
        let changes = match status_flags(repo) {
            Some(flags) => Some(count_changes(&flags)),
            None => None,
        };
        let r = Status::classify(state, changes, push);
        assert(r == classification(state, opt_nat(changes), push_status_of(branch)));
        r
    }

    /// Reads and classifies a repository, resolving its branch's upstream once.
    pub fn new(repo: &Repository) -> (r: Status)
        ensures
            exists|state: RepoState, changes: Option<nat>, branch: BranchState|
                r == classification(state, changes, push_status_of(branch)),
    {
        let branch = read_branch_state(repo);
        Status::with_branch(repo, branch)
    }
}

} // verus!
