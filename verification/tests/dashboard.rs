use std::path::PathBuf;

use keystone_tui::app::{
    create_failed_message, created_message, import_failed_message, imported_message, App,
    AppScreen,
};
use keystone_tui::config::{AppConfig, KeystoneRepo};
use keystone_tui::nix::{FlakeInfo, HostInfo};
use keystone_tui::screens::welcome::WelcomeState;

fn repo(name: &str, path: &str) -> KeystoneRepo {
    KeystoneRepo { name: name.to_string(), path: PathBuf::from(path) }
}

fn host(name: &str) -> HostInfo {
    HostInfo { name: name.to_string(), system: None, keystone_modules: vec![], config_files: vec![] }
}

fn config(repos: Vec<KeystoneRepo>) -> AppConfig {
    AppConfig { repos }
}

#[test]
fn discovered_repos_join_the_configured_ones() {
    let mut config = config(vec![repo("a", "/r/a"), repo("b", "/r/b")]);
    config.merge_discovered(vec![repo("b2", "/r/b"), repo("c", "/r/c"), repo("c2", "/r/c"), repo("d", "/r/d")]);
    assert_eq!(
        config.repos,
        vec![repo("a", "/r/a"), repo("b", "/r/b"), repo("c", "/r/c"), repo("d", "/r/d")]
    );
    config.merge_discovered(vec![]);
    assert_eq!(config.repos.len(), 4);
}

#[test]
fn paths_are_compared_by_their_components() {
    let config = config(vec![repo("a", "/r/a")]);
    assert!(config.contains_path(&PathBuf::from("/r/a")));
    assert!(config.contains_path(&PathBuf::from("/r//a/")));
    assert!(!config.contains_path(&PathBuf::from("/r/b")));
    assert!(!AppConfig::default().contains_path(&PathBuf::from("/r/a")));
}

#[test]
fn repo_clone_is_equal() {
    let first = repo("a", "/r/a");
    assert_eq!(first.clone(), first);
}

#[test]
fn app_without_repos_opens_on_welcome() {
    let app = App::new(AppConfig::default(), vec![host("ignored")]);
    assert!(!app.should_quit);
    assert_eq!(app.active_repo_index, None);
    assert_eq!(app.active_repo_path(), None);
    assert_eq!(app.last_repo_index(), 0);
    match &app.current_screen {
        AppScreen::Welcome(screen) => assert_eq!(screen.state(), &WelcomeState::SelectAction),
        _ => panic!("expected the welcome screen"),
    }
}

#[test]
fn app_with_repos_opens_on_the_hosts_of_the_first() {
    let app = App::new(config(vec![repo("a", "/r/a"), repo("b", "/r/b")]), vec![host("x"), host("y")]);
    assert_eq!(app.active_repo_index, Some(0));
    assert_eq!(app.active_repo_path(), Some(PathBuf::from("/r/a")));
    assert_eq!(app.last_repo_index(), 1);
    match &app.current_screen {
        AppScreen::Hosts(screen) => {
            assert_eq!(screen.repo_name(), "a");
            assert_eq!(screen.hosts(), &vec![host("x"), host("y")]);
            assert_eq!(screen.selected_index(), Some(0));
        }
        _ => panic!("expected the hosts screen"),
    }
}

#[test]
fn go_to_hosts_switches_the_repo() {
    let mut app = App::new(config(vec![repo("a", "/r/a"), repo("b", "/r/b")]), vec![]);
    app.go_to_hosts(1, FlakeInfo { hosts: vec![host("z")] });
    assert_eq!(app.active_repo_index, Some(1));
    assert_eq!(app.active_repo_path(), Some(PathBuf::from("/r/b")));
    match &app.current_screen {
        AppScreen::Hosts(screen) => {
            assert_eq!(screen.repo_name(), "b");
            assert_eq!(screen.hosts(), &vec![host("z")]);
        }
        _ => panic!("expected the hosts screen"),
    }
    app.go_to_hosts(2, FlakeInfo { hosts: vec![] });
    assert_eq!(app.active_repo_index, Some(1));
    match &app.current_screen {
        AppScreen::Hosts(screen) => assert_eq!(screen.repo_name(), "b"),
        _ => panic!("expected the hosts screen"),
    }
}

#[test]
fn active_repo_path_of_a_stale_index_is_none() {
    let mut app = App::new(config(vec![repo("a", "/r/a")]), vec![]);
    app.active_repo_index = Some(5);
    assert_eq!(app.active_repo_path(), None);
}

#[test]
fn host_detail_is_shown() {
    let mut app = App::new(config(vec![repo("a", "/r/a")]), vec![host("x")]);
    app.go_to_host_detail(host("x"));
    match &app.current_screen {
        AppScreen::HostDetail(screen) => assert_eq!(screen.host(), &host("x")),
        _ => panic!("expected the detail screen"),
    }
    assert_eq!(app.active_repo_index, Some(0));
}

#[test]
fn added_repo_is_reported_on_the_welcome_screen() {
    let mut app = App::new(AppConfig::default(), vec![]);
    app.repo_added(repo("infra", "/r/infra"), imported_message("infra"));
    assert_eq!(app.config.repos, vec![repo("infra", "/r/infra")]);
    match &app.current_screen {
        AppScreen::Welcome(screen) => {
            assert_eq!(screen.state(), &WelcomeState::Success);
            assert_eq!(
                screen.success_message(),
                &Some("Repository 'infra' imported successfully!".to_string())
            );
        }
        _ => panic!("expected the welcome screen"),
    }
    assert_eq!(app.last_repo_index(), 0);
}

#[test]
fn failure_is_reported_on_the_welcome_screen() {
    let mut app = App::new(AppConfig::default(), vec![]);
    app.repo_failed(import_failed_message("no network"));
    assert!(app.config.repos.is_empty());
    match &app.current_screen {
        AppScreen::Welcome(screen) => {
            assert_eq!(screen.state(), &WelcomeState::Error);
            assert_eq!(
                screen.error_message(),
                &Some("Failed to import repository: no network".to_string())
            );
        }
        _ => panic!("expected the welcome screen"),
    }
}

#[test]
fn reports_away_from_the_welcome_screen_change_nothing() {
    let mut app = App::new(config(vec![repo("a", "/r/a")]), vec![host("x")]);
    app.repo_added(repo("b", "/r/b"), created_message("b"));
    app.repo_failed(create_failed_message("disk full"));
    assert_eq!(app.config.repos, vec![repo("a", "/r/a")]);
    match &app.current_screen {
        AppScreen::Hosts(screen) => assert_eq!(screen.repo_name(), "a"),
        _ => panic!("expected the hosts screen"),
    }
}

#[test]
fn messages_name_the_repo_or_the_reason() {
    assert_eq!(imported_message("x"), "Repository 'x' imported successfully!");
    assert_eq!(created_message("x"), "Repository 'x' created successfully!");
    assert_eq!(import_failed_message("why"), "Failed to import repository: why");
    assert_eq!(create_failed_message("why"), "Failed to create repository: why");
}

#[test]
fn hosts_screen_of_a_repo() {
    let screen = App::load_hosts_screen(&repo("a", "/r/a"), FlakeInfo { hosts: vec![] });
    assert_eq!(screen.repo_name(), "a");
    assert!(screen.hosts().is_empty());
    assert_eq!(screen.selected_index(), None);
}
