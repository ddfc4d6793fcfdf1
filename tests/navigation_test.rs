use git_statuses::interactive::helpers::{GitAction, View};
use git_statuses::interactive::navigation::{Key, NavCommand, Navigator};

#[test]
fn list_selection_moves_within_bounds() {
    let mut nav = Navigator::new(2);
    assert_eq!(nav.view, View::RepositoryList);
    assert_eq!(nav.selected_repo, Some(0));
    assert_eq!(nav.handle_key(Key::Up), NavCommand::Continue);
    assert_eq!(nav.selected_repo, Some(0));
    nav.handle_key(Key::Down);
    assert_eq!(nav.selected_repo, Some(1));
    nav.handle_key(Key::Down);
    assert_eq!(nav.selected_repo, Some(1));
    nav.handle_key(Key::Up);
    assert_eq!(nav.selected_repo, Some(0));
}

#[test]
fn empty_list_selects_nothing() {
    let mut nav = Navigator::new(0);
    assert_eq!(nav.selected_repo, None);
    nav.handle_key(Key::Down);
    assert_eq!(nav.selected_repo, None);
    assert_eq!(nav.handle_key(Key::Enter), NavCommand::Continue);
    assert_eq!(nav.view, View::RepositoryList);
}

#[test]
fn quit_keys() {
    let mut nav = Navigator::new(1);
    assert_eq!(nav.handle_key(Key::Esc), NavCommand::Quit);
    assert_eq!(nav.handle_key(Key::Char('q')), NavCommand::Quit);
    assert_eq!(nav.handle_key(Key::Char('x')), NavCommand::Continue);
}

#[test]
fn running_an_action_and_going_back() {
    let mut nav = Navigator::new(3);
    nav.handle_key(Key::Down);
    nav.handle_key(Key::Enter);
    assert_eq!(nav.view, View::RepositoryActions(1, 0));
    nav.handle_key(Key::Down);
    nav.handle_key(Key::Down);
    assert_eq!(nav.view, View::RepositoryActions(1, 2));
    assert_eq!(nav.handle_key(Key::Enter), NavCommand::Run(1, GitAction::Fetch));
    assert_eq!(nav.view, View::CommandRunning(1, "Git Fetch".to_string()));
    assert_eq!(nav.handle_key(Key::Up), NavCommand::Continue);
    nav.finish_command("done".to_string());
    assert_eq!(nav.view, View::CommandOutput(1, "Git Fetch".to_string(), "done".to_string()));
    nav.handle_key(Key::Enter);
    assert_eq!(nav.view, View::RepositoryActions(1, 2));
    nav.handle_key(Key::Backspace);
    assert_eq!(nav.view, View::RepositoryList);
    assert_eq!(nav.selected_repo, Some(1));
}

#[test]
fn back_action_and_menu_bounds() {
    let mut nav = Navigator::new(1);
    nav.handle_key(Key::Enter);
    for _ in 0..10 {
        nav.handle_key(Key::Down);
    }
    assert_eq!(nav.view, View::RepositoryActions(0, 4));
    assert_eq!(nav.handle_key(Key::Enter), NavCommand::Continue);
    assert_eq!(nav.view, View::RepositoryList);
    nav.finish_command("ignored".to_string());
    assert_eq!(nav.view, View::RepositoryList);
}
