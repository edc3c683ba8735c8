use keystone_tui::handlers::{
    handle_build_input, handle_host_detail_input, handle_hosts_input, handle_welcome_input, AppAction,
};
use keystone_tui::keys::{KeyCode, KeyEvent};
use keystone_tui::nix::HostInfo;
use keystone_tui::runner::message::{BuildMessage, BuildResult};
use keystone_tui::runner::screen::BuildScreen;
use keystone_tui::screens::host_detail::HostDetailScreen;
use keystone_tui::screens::hosts::HostsScreen;
use keystone_tui::screens::welcome::{
    extract_repo_name, WelcomeAction, WelcomeOption, WelcomeScreen, WelcomeState,
};
use tokio::sync::mpsc::unbounded_channel;
use tokio_util::sync::CancellationToken;

fn key(code: KeyCode) -> KeyEvent {
    KeyEvent::plain(code)
}

fn type_text(screen: &mut WelcomeScreen, text: &str) {
    for c in text.chars() {
        assert!(screen.handle_text_input(key(KeyCode::Char(c))));
    }
}

fn host(name: &str) -> HostInfo {
    HostInfo { name: name.to_string(), system: None, keystone_modules: vec![], config_files: vec![] }
}

#[test]
fn repo_name_comes_from_the_end_of_the_url() {
    assert_eq!(extract_repo_name("https://github.com/user/repo.git"), Some("repo".to_string()));
    assert_eq!(extract_repo_name("git@github.com:user/repo.git"), Some("repo".to_string()));
    assert_eq!(extract_repo_name("https://github.com/user/repo"), Some("repo".to_string()));
    assert_eq!(extract_repo_name("repo.git"), Some("repo".to_string()));
    assert_eq!(extract_repo_name("git@host:repo.git"), Some("git@host:repo".to_string()));
}

#[test]
fn repo_name_edge_cases() {
    assert_eq!(extract_repo_name(""), Some(String::new()));
    assert_eq!(extract_repo_name(".git"), Some(String::new()));
    assert_eq!(extract_repo_name("https://host/user/"), Some(String::new()));
    assert_eq!(extract_repo_name("a/b.git.git"), Some("b".to_string()));
    assert_eq!(extract_repo_name("a/b.gitx"), Some("b.gitx".to_string()));
    assert_eq!(extract_repo_name("a/git"), Some("git".to_string()));
    assert_eq!(extract_repo_name("x/.git/y.git"), Some("y".to_string()));
}

#[test]
fn welcome_opens_on_the_choice_of_action() {
    let screen = WelcomeScreen::new();
    assert_eq!(screen.state(), &WelcomeState::SelectAction);
    assert_eq!(screen.get_selected_option(), WelcomeOption::ImportExisting);
    assert_eq!(screen.git_url_input().placeholder(), "https://github.com/user/repo.git");
    assert_eq!(screen.repo_name_input().placeholder(), "my-infrastructure");
    assert_eq!(screen.error_message(), &None);
    assert_eq!(screen.success_message(), &None);
    assert_eq!(WelcomeScreen::default().state(), &WelcomeState::SelectAction);
}

#[test]
fn next_and_previous_toggle_the_option() {
    let mut screen = WelcomeScreen::new();
    screen.next();
    assert_eq!(screen.get_selected_option(), WelcomeOption::CreateNew);
    screen.next();
    assert_eq!(screen.get_selected_option(), WelcomeOption::ImportExisting);
    screen.previous();
    assert_eq!(screen.get_selected_option(), WelcomeOption::CreateNew);
    screen.confirm();
    screen.next();
    screen.previous();
    screen.previous();
    assert_eq!(screen.get_selected_option(), WelcomeOption::CreateNew);
}

#[test]
fn import_flow_asks_for_the_url() {
    let mut screen = WelcomeScreen::new();
    assert_eq!(screen.confirm(), WelcomeAction::Nothing);
    assert_eq!(screen.state(), &WelcomeState::InputGitUrl);
    assert!(screen.git_url_input().is_focused());
    type_text(&mut screen, "https://github.com/user/infra.git");
    assert_eq!(
        screen.confirm(),
        WelcomeAction::ImportRepo {
            name: "infra".to_string(),
            git_url: "https://github.com/user/infra.git".to_string()
        }
    );
    assert_eq!(screen.state(), &WelcomeState::Importing);
    assert_eq!(screen.confirm(), WelcomeAction::Nothing);
    assert_eq!(screen.state(), &WelcomeState::Importing);
}

#[test]
fn empty_url_is_an_error() {
    let mut screen = WelcomeScreen::new();
    screen.confirm();
    assert_eq!(screen.confirm(), WelcomeAction::Nothing);
    assert_eq!(screen.state(), &WelcomeState::Error);
    assert_eq!(screen.error_message(), &Some("Git URL cannot be empty".to_string()));
    assert_eq!(screen.confirm(), WelcomeAction::Nothing);
    assert_eq!(screen.state(), &WelcomeState::SelectAction);
    assert_eq!(screen.error_message(), &None);
}

#[test]
fn create_flow_asks_for_the_name() {
    let mut screen = WelcomeScreen::new();
    screen.next();
    assert_eq!(screen.confirm(), WelcomeAction::Nothing);
    assert_eq!(screen.state(), &WelcomeState::InputRepoName);
    assert!(screen.repo_name_input().is_focused());
    type_text(&mut screen, "homelab");
    assert_eq!(screen.confirm(), WelcomeAction::CreateRepo { name: "homelab".to_string() });
    assert_eq!(screen.state(), &WelcomeState::Creating);
}

#[test]
fn empty_name_is_an_error() {
    let mut screen = WelcomeScreen::new();
    screen.next();
    screen.confirm();
    assert_eq!(screen.confirm(), WelcomeAction::Nothing);
    assert_eq!(screen.state(), &WelcomeState::Error);
    assert_eq!(screen.error_message(), &Some("Repository name cannot be empty".to_string()));
}

#[test]
fn cancel_leaves_the_inputs_and_errors() {
    let mut screen = WelcomeScreen::new();
    screen.confirm();
    screen.cancel();
    assert_eq!(screen.state(), &WelcomeState::SelectAction);
    assert!(!screen.git_url_input().is_focused());
    screen.set_error("boom".to_string());
    assert_eq!(screen.state(), &WelcomeState::Error);
    assert_eq!(screen.error_message(), &Some("boom".to_string()));
    screen.cancel();
    assert_eq!(screen.state(), &WelcomeState::SelectAction);
    assert_eq!(screen.error_message(), &None);
    screen.cancel();
    assert_eq!(screen.state(), &WelcomeState::SelectAction);
}

#[test]
fn success_is_acknowledged_with_enter() {
    let mut screen = WelcomeScreen::new();
    screen.set_success("done".to_string());
    assert_eq!(screen.state(), &WelcomeState::Success);
    assert_eq!(screen.success_message(), &Some("done".to_string()));
    assert_eq!(screen.confirm(), WelcomeAction::Complete);
    assert_eq!(screen.state(), &WelcomeState::Success);
    screen.cancel();
    assert_eq!(screen.state(), &WelcomeState::Success);
}

#[test]
fn text_goes_to_the_input_of_the_state() {
    let mut screen = WelcomeScreen::new();
    assert!(!screen.handle_text_input(key(KeyCode::Char('x'))));
    screen.confirm();
    assert!(screen.handle_text_input(key(KeyCode::Char('x'))));
    assert!(!screen.handle_text_input(key(KeyCode::Up)));
    assert_eq!(screen.git_url_input().value(), "x");
    assert_eq!(screen.repo_name_input().value(), "");
}

#[test]
fn welcome_keys_on_the_choice_of_action() {
    let mut screen = WelcomeScreen::new();
    let mut quit = false;
    assert_eq!(handle_welcome_input(&mut screen, key(KeyCode::Down), &mut quit), None);
    assert_eq!(screen.get_selected_option(), WelcomeOption::CreateNew);
    assert_eq!(handle_welcome_input(&mut screen, key(KeyCode::Char('k')), &mut quit), None);
    assert_eq!(screen.get_selected_option(), WelcomeOption::ImportExisting);
    assert_eq!(handle_welcome_input(&mut screen, key(KeyCode::Char('j')), &mut quit), None);
    assert_eq!(handle_welcome_input(&mut screen, key(KeyCode::Up), &mut quit), None);
    assert_eq!(screen.get_selected_option(), WelcomeOption::ImportExisting);
    assert!(!quit);
    assert_eq!(handle_welcome_input(&mut screen, key(KeyCode::Char('q')), &mut quit), None);
    assert!(quit);
    let mut quit = false;
    handle_welcome_input(&mut screen, key(KeyCode::Esc), &mut quit);
    assert!(quit);
    let mut quit = false;
    assert_eq!(
        handle_welcome_input(&mut screen, key(KeyCode::Enter), &mut quit),
        Some(AppAction::WelcomeAction(WelcomeAction::Nothing))
    );
    assert_eq!(screen.state(), &WelcomeState::InputGitUrl);
    assert!(!quit);
}

#[test]
fn welcome_keys_while_typing() {
    let mut screen = WelcomeScreen::new();
    let mut quit = false;
    handle_welcome_input(&mut screen, key(KeyCode::Enter), &mut quit);
    for c in "a/q.git".chars() {
        assert_eq!(handle_welcome_input(&mut screen, key(KeyCode::Char(c)), &mut quit), None);
    }
    assert!(!quit);
    assert_eq!(screen.git_url_input().value(), "a/q.git");
    assert_eq!(
        handle_welcome_input(&mut screen, key(KeyCode::Enter), &mut quit),
        Some(AppAction::WelcomeAction(WelcomeAction::ImportRepo {
            name: "q".to_string(),
            git_url: "a/q.git".to_string()
        }))
    );
    let mut other = WelcomeScreen::new();
    handle_welcome_input(&mut other, key(KeyCode::Enter), &mut quit);
    handle_welcome_input(&mut other, key(KeyCode::Esc), &mut quit);
    assert_eq!(other.state(), &WelcomeState::SelectAction);
    assert!(!quit);
}

#[test]
fn welcome_escape_dismisses_an_error_without_quitting() {
    let mut screen = WelcomeScreen::new();
    screen.set_error("e".to_string());
    let mut quit = false;
    assert_eq!(handle_welcome_input(&mut screen, key(KeyCode::Char('q')), &mut quit), None);
    assert!(!quit);
    assert_eq!(screen.state(), &WelcomeState::Error);
    handle_welcome_input(&mut screen, key(KeyCode::Esc), &mut quit);
    assert!(!quit);
    assert_eq!(screen.state(), &WelcomeState::SelectAction);
}

#[test]
fn hosts_keys() {
    let mut screen = HostsScreen::new("r".to_string(), vec![host("a"), host("b")]);
    let mut quit = false;
    assert_eq!(handle_hosts_input(&mut screen, key(KeyCode::Down), &mut quit), None);
    assert_eq!(screen.selected_index(), Some(1));
    assert_eq!(
        handle_hosts_input(&mut screen, key(KeyCode::Enter), &mut quit),
        Some(AppAction::GoToHostDetail(host("b")))
    );
    assert_eq!(handle_hosts_input(&mut screen, key(KeyCode::Char('k')), &mut quit), None);
    assert_eq!(screen.selected_index(), Some(0));
    assert_eq!(handle_hosts_input(&mut screen, key(KeyCode::Char('j')), &mut quit), None);
    assert_eq!(handle_hosts_input(&mut screen, key(KeyCode::Up), &mut quit), None);
    assert_eq!(screen.selected_index(), Some(0));
    assert_eq!(handle_hosts_input(&mut screen, key(KeyCode::Tab), &mut quit), None);
    assert!(!quit);
    handle_hosts_input(&mut screen, key(KeyCode::Char('q')), &mut quit);
    assert!(quit);
    let mut quit = false;
    handle_hosts_input(&mut screen, key(KeyCode::Esc), &mut quit);
    assert!(quit);
    let mut empty = HostsScreen::new("r".to_string(), vec![]);
    let mut quit = false;
    assert_eq!(handle_hosts_input(&mut empty, key(KeyCode::Enter), &mut quit), None);
}

#[test]
fn host_detail_keys() {
    let mut screen = HostDetailScreen::new(host("server"));
    let mut quit = false;
    assert_eq!(
        handle_host_detail_input(&mut screen, key(KeyCode::Esc), &mut quit),
        Some(AppAction::GoToHosts)
    );
    assert_eq!(
        handle_host_detail_input(&mut screen, key(KeyCode::Char('b')), &mut quit),
        Some(AppAction::StartBuild("server".to_string()))
    );
    assert_eq!(handle_host_detail_input(&mut screen, key(KeyCode::Enter), &mut quit), None);
    assert!(!quit);
    assert_eq!(handle_host_detail_input(&mut screen, key(KeyCode::Char('q')), &mut quit), None);
    assert!(quit);
}

#[test]
fn build_keys_while_running() {
    let (_tx, rx) = unbounded_channel::<BuildMessage>();
    let token = CancellationToken::new();
    let mut screen = BuildScreen::new("h".to_string(), rx, token.clone());
    let mut quit = false;
    assert_eq!(handle_build_input(&mut screen, key(KeyCode::Char('q')), &mut quit), None);
    assert!(!quit);
    assert_eq!(handle_build_input(&mut screen, key(KeyCode::Up), &mut quit), None);
    assert_eq!(handle_build_input(&mut screen, key(KeyCode::Char('k')), &mut quit), None);
    assert_eq!(screen.scroll_offset(), 2);
    assert_eq!(handle_build_input(&mut screen, key(KeyCode::Down), &mut quit), None);
    assert_eq!(handle_build_input(&mut screen, key(KeyCode::Char('j')), &mut quit), None);
    assert!(screen.auto_scroll());
    assert!(!token.is_cancelled());
    assert_eq!(handle_build_input(&mut screen, key(KeyCode::Esc), &mut quit), None);
    assert!(token.is_cancelled());
    assert!(!quit);
}

#[test]
fn build_keys_once_finished() {
    let (_tx, rx) = unbounded_channel::<BuildMessage>();
    let token = CancellationToken::new();
    let mut screen = BuildScreen::new("h".to_string(), rx, token.clone());
    screen.handle_message(BuildMessage::Finished(BuildResult::Failed(1)));
    let mut quit = false;
    assert_eq!(
        handle_build_input(&mut screen, key(KeyCode::Esc), &mut quit),
        Some(AppAction::GoToHosts)
    );
    assert!(!token.is_cancelled());
    assert!(!quit);
    assert_eq!(handle_build_input(&mut screen, key(KeyCode::Char('q')), &mut quit), None);
    assert!(quit);
}
