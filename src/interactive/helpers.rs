//! Views of the interactive mode and the git actions it offers.
use vstd::prelude::*;
use vstd::view::View as _;

verus! {

/// A screen of the interactive mode.
#[derive(Clone, Debug, PartialEq, Eq)]
pub enum View {
    /// The list of repositories.
    RepositoryList,
    /// The actions for a repository: repository index, selected action index.
    RepositoryActions(usize, usize),
    /// A command running: repository index, command name.
    CommandRunning(usize, String),
    /// A command's output: repository index, command name, output.
    CommandOutput(usize, String, String),
}

/// An action that can be run on a repository.
#[derive(Clone, Copy, Debug, PartialEq, Eq, Structural)]
pub enum GitAction {
    Status,
    Push,
    Fetch,
    Pull,
    Back,
}

/// The menu label of an action.
pub open spec fn action_label(a: GitAction) -> Seq<char> {
    match a {
        GitAction::Status => "📋 See status"@,
        GitAction::Push => "📤 Push"@,
        GitAction::Fetch => "📥 Fetch"@,
        GitAction::Pull => "⬇️ Pull"@,
        GitAction::Back => "🔙 Back to repository list"@,
    }
}

/// The actions in menu order.
pub open spec fn all_actions() -> Seq<GitAction> {
    seq![GitAction::Status, GitAction::Push, GitAction::Fetch, GitAction::Pull, GitAction::Back]
}

impl GitAction {
    /// The menu label of this action.
    pub fn as_str(&self) -> (r: &'static str)
        ensures
            r@ == action_label(*self),
    {
        match self {
            GitAction::Status => "📋 See status",
            GitAction::Push => "📤 Push",
            GitAction::Fetch => "📥 Fetch",
            GitAction::Pull => "⬇️ Pull",
            GitAction::Back => "🔙 Back to repository list",
        }
    }

    /// Every action, in menu order.
    pub fn all() -> (r: Vec<GitAction>)
        ensures
            r@ == all_actions(),
    {
        vec![GitAction::Status, GitAction::Push, GitAction::Fetch, GitAction::Pull, GitAction::Back]
    }
}

} // verus!
