//! The decisions of the interactive mode: which screen follows a key press,
//! and which git action to run. Drawing and running commands are left to the
//! caller, which hands each key press in and carries the command out.
use vstd::prelude::*;
use vstd::view::View as _;
use crate::interactive::helpers::{all_actions, GitAction, View};
use crate::text::string_of;

verus! {

/// A key press, as far as the interactive mode tells keys apart.
#[derive(Clone, Copy, Debug, PartialEq, Eq, Structural)]
pub enum Key {
    Up,
    Down,
    Enter,
    Esc,
    Backspace,
    Char(char),
    Other,
}

/// What the caller does after a key press.
#[derive(Clone, Copy, Debug, PartialEq, Eq, Structural)]
pub enum NavCommand {
    /// Redraw and wait for the next key.
    Continue,
    /// Leave the interactive mode.
    Quit,
    /// Run the action on the repository of that index, then report its
    /// output through `finish_command`.
    Run(usize, GitAction),
}

/// The screen and the selections of the interactive mode.
#[derive(Clone, Debug)]
pub struct Navigator {
    /// The screen shown.
    pub view: View,
    /// The selected repository in the list.
    pub selected_repo: Option<usize>,
    /// The selected action in the action menu.
    pub selected_action: Option<usize>,
    /// The number of repositories listed.
    pub repo_count: usize,
}

/// The title of the command that an action runs.
pub open spec fn command_title(a: GitAction) -> Seq<char> {
    match a {
        GitAction::Status => "Git Status"@,
        GitAction::Push => "Git Push"@,
        GitAction::Fetch => "Git Fetch"@,
        GitAction::Pull => "Git Pull"@,
        GitAction::Back => Seq::empty(),
    }
}

/// Keys that close the current screen.
pub open spec fn is_back_key(k: Key) -> bool {
    k == Key::Esc || k == Key::Backspace
}

/// The selections and count are those of `n`, the screen may differ.
pub open spec fn same_selection(m: Navigator, n: Navigator) -> bool {
    m.selected_repo == n.selected_repo && m.selected_action == n.selected_action
        && m.repo_count == n.repo_count
}

/// The state `m` and the command `c` follow from `n` on key `k`.
pub open spec fn follows(n: Navigator, k: Key, m: Navigator, c: NavCommand) -> bool {
    m.repo_count == n.repo_count && match n.view {
        View::RepositoryList => if k == Key::Char('q') || k == Key::Esc {
            c == NavCommand::Quit && m == n
        } else if k == Key::Up {
            c == NavCommand::Continue && m.view == n.view && m.selected_action == n.selected_action
                && m.selected_repo == match n.selected_repo {
                    Some(s) => if s > 0 { Some((s - 1) as usize) } else { Some(s) },
                    None => None,
                }
        } else if k == Key::Down {
            c == NavCommand::Continue && m.view == n.view && m.selected_action == n.selected_action
                && m.selected_repo == match n.selected_repo {
                    Some(s) => if s + 1 < n.repo_count { Some((s + 1) as usize) } else { Some(s) },
                    None => if n.repo_count > 0 { Some(0usize) } else { None },
                }
        } else if k == Key::Enter {
            c == NavCommand::Continue && match n.selected_repo {
                Some(s) => m.view == View::RepositoryActions(s, 0) && m.selected_action == Some(0usize)
                    && m.selected_repo == n.selected_repo,
                None => m == n,
            }
        } else {
            c == NavCommand::Continue && m == n
        },
        View::RepositoryActions(repo, _) => if k == Key::Char('q') {
            c == NavCommand::Quit && m == n
        } else if is_back_key(k) {
            c == NavCommand::Continue && m.view == View::RepositoryList
                && same_selection(m, n)
        } else if k == Key::Up {
            c == NavCommand::Continue && m.selected_repo == n.selected_repo && match n.selected_action {
                Some(s) => if s > 0 {
                    m.selected_action == Some((s - 1) as usize)
                        && m.view == View::RepositoryActions(repo, (s - 1) as usize)
                } else {
                    m == n
                },
                None => m == n,
            }
        } else if k == Key::Down {
            c == NavCommand::Continue && m.selected_repo == n.selected_repo && match n.selected_action {
                Some(s) => if s + 1 < all_actions().len() {
                    m.selected_action == Some((s + 1) as usize)
                        && m.view == View::RepositoryActions(repo, (s + 1) as usize)
                } else {
                    m == n
                },
                None => m.selected_action == Some(0usize) && m.view == View::RepositoryActions(repo, 0),
            }
        } else if k == Key::Enter {
            match n.selected_action {
                Some(s) => if s < all_actions().len() {
                    let a = all_actions()[s as int];
                    if a == GitAction::Back {
                        c == NavCommand::Continue && m.view == View::RepositoryList
                            && same_selection(m, n)
                    } else {
                        c == NavCommand::Run(repo, a) && same_selection(m, n)
                            && (m.view matches View::CommandRunning(i, t) && i == repo
                            && t@ == command_title(a))
                    }
                } else {
                    c == NavCommand::Continue && m == n
                },
                None => c == NavCommand::Continue && m == n,
            }
        } else {
            c == NavCommand::Continue && m == n
        },
        View::CommandRunning(_, _) => if k == Key::Char('q') {
            c == NavCommand::Quit && m == n
        } else {
            c == NavCommand::Continue && m == n
        },
        View::CommandOutput(repo, _, _) => if k == Key::Char('q') {
            c == NavCommand::Quit && m == n
        } else if is_back_key(k) || k == Key::Enter {
            c == NavCommand::Continue && same_selection(m, n) && m.view == View::RepositoryActions(
                repo,
                match n.selected_action { Some(s) => s, None => 0 },
            )
        } else {
            c == NavCommand::Continue && m == n
        },
    }
}

impl Navigator {
    /// The list screen, with the first repository and the first action selected.
    pub fn new(repo_count: usize) -> (r: Navigator)
        ensures
            r.view == View::RepositoryList,
            r.selected_repo == (if repo_count > 0 { Some(0usize) } else { None }),
            r.selected_action == Some(0usize),
            r.repo_count == repo_count,
    {
        Navigator {
            view: View::RepositoryList,
            selected_repo: if repo_count > 0 { Some(0) } else { None },
            selected_action: Some(0),
            repo_count,
        }
    }

    /// Moves to the screen that follows a key press and says what to do next.
    pub fn handle_key(&mut self, key: Key) -> (r: NavCommand)
        ensures
            follows(*old(self), key, *final(self), r),
    {
        match self.view {
            View::RepositoryList => self.list_key(key),
            View::RepositoryActions(repo, _) => self.actions_key(key, repo),
            View::CommandRunning(_, _) => if key == Key::Char('q') {
                NavCommand::Quit
            } else {
                NavCommand::Continue
            },
            View::CommandOutput(repo, _, _) => if key == Key::Char('q') {
                NavCommand::Quit
            } else if key == Key::Esc || key == Key::Backspace || key == Key::Enter {
                let s = match self.selected_action {
                    Some(s) => s,
                    None => 0,
                };
                self.view = View::RepositoryActions(repo, s);
                NavCommand::Continue
            } else {
                NavCommand::Continue
            },
        }
    }

    fn list_key(&mut self, key: Key) -> (r: NavCommand)
        requires
            old(self).view == View::RepositoryList,
        ensures
            follows(*old(self), key, *final(self), r),
    {
        if key == Key::Char('q') || key == Key::Esc {
            NavCommand::Quit
        } else if key == Key::Up {
            if let Some(s) = self.selected_repo {
                if s > 0 {
                    self.selected_repo = Some(s - 1);
                }
            }
            NavCommand::Continue
        } else if key == Key::Down {
            match self.selected_repo {
                Some(s) => if s < self.repo_count && s + 1 < self.repo_count {
                    self.selected_repo = Some(s + 1);
                },
                None => if self.repo_count > 0 {
                    self.selected_repo = Some(0);
                },
            }
            NavCommand::Continue
        } else if key == Key::Enter {
            if let Some(s) = self.selected_repo {
                self.view = View::RepositoryActions(s, 0);
                self.selected_action = Some(0);
            }
            NavCommand::Continue
        } else {
            NavCommand::Continue
        }
    }

    fn actions_key(&mut self, key: Key, repo: usize) -> (r: NavCommand)
        requires
            old(self).view matches View::RepositoryActions(i, _) && i == repo,
        ensures
            follows(*old(self), key, *final(self), r),
    {
        let actions = GitAction::all();
        if key == Key::Char('q') {
            NavCommand::Quit
        } else if key == Key::Esc || key == Key::Backspace {
            self.view = View::RepositoryList;
            NavCommand::Continue
        } else if key == Key::Up {
            if let Some(s) = self.selected_action {
                if s > 0 {
                    self.selected_action = Some(s - 1);
                    self.view = View::RepositoryActions(repo, s - 1);
                }
            }
            NavCommand::Continue
        } else if key == Key::Down {
            match self.selected_action {
                Some(s) => if s < actions.len() && s + 1 < actions.len() {
                    self.selected_action = Some(s + 1);
                    self.view = View::RepositoryActions(repo, s + 1);
                },
                None => {
                    self.selected_action = Some(0);
                    self.view = View::RepositoryActions(repo, 0);
                },
            }
            NavCommand::Continue
        } else if key == Key::Enter {
            match self.selected_action {
                Some(s) => if s < actions.len() {
                    let a = actions[s];
                    match a {
                        GitAction::Back => {
                            self.view = View::RepositoryList;
                            NavCommand::Continue
                        },
                        GitAction::Status => {
                            self.view = View::CommandRunning(repo, string_of("Git Status"));
                            NavCommand::Run(repo, a)
                        },
                        GitAction::Push => {
                            self.view = View::CommandRunning(repo, string_of("Git Push"));
                            NavCommand::Run(repo, a)
                        },
                        GitAction::Fetch => {
                            self.view = View::CommandRunning(repo, string_of("Git Fetch"));
                            NavCommand::Run(repo, a)
                        },
                        GitAction::Pull => {
                            self.view = View::CommandRunning(repo, string_of("Git Pull"));
                            NavCommand::Run(repo, a)
                        },
                    }
                } else {
                    NavCommand::Continue
                },
                None => NavCommand::Continue,
            }
        } else {
            NavCommand::Continue
        }
    }

    /// Shows the output of the command that is running; on any other screen
    /// nothing changes.
    pub fn finish_command(&mut self, output: String)
        ensures
            match old(self).view {
                View::CommandRunning(i, t) => (final(self).view matches View::CommandOutput(j, u, o)
                    && j == i && u@ == t@ && o@ == output@),
                _ => final(self).view == old(self).view,
            },
            same_selection(*final(self), *old(self)),
    {
        if let View::CommandRunning(i, t) = &self.view {
            let i = *i;
            let t = t.clone();
            self.view = View::CommandOutput(i, t, output);
        }
    }
}

} // verus!
