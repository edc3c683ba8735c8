use std::path::PathBuf;

use keystone_tui::config::{config_file_path, KeystoneRepo, CONFIG_FILE_NAME};
use keystone_tui::keys::{KeyCode, KeyEvent};
use keystone_tui::nix::HostInfo;
use keystone_tui::repo::{list_discovered, repo_dir, repos_dir};
use keystone_tui::screens::host_detail::HostDetailScreen;
use keystone_tui::screens::hosts::{host_line, HostsScreen};
use keystone_tui::ui::input::TextInput;

fn repo(name: &str) -> KeystoneRepo {
    KeystoneRepo { name: name.to_string(), path: PathBuf::from("/r").join(name) }
}

fn names(repos: &[KeystoneRepo]) -> Vec<String> {
    repos.iter().map(|repo| repo.name.clone()).collect()
}

#[test]
fn repos_live_under_the_home_directory() {
    let dir = repos_dir(&PathBuf::from("/home/alice"));
    assert_eq!(dir, PathBuf::from("/home/alice/.keystone/repos"));
    assert_eq!(repo_dir(&dir, "infra"), PathBuf::from("/home/alice/.keystone/repos/infra"));
    assert_eq!(repo_dir(&dir, "/elsewhere"), PathBuf::from("/elsewhere"));
}

#[test]
fn config_file_has_its_name() {
    assert_eq!(CONFIG_FILE_NAME, "config.toml");
    assert_eq!(
        config_file_path(&PathBuf::from("/home/alice/.config/keystonetui")),
        PathBuf::from("/home/alice/.config/keystonetui/config.toml")
    );
}

#[test]
fn discovered_repos_are_listed_by_name() {
    let listed = list_discovered(vec![repo("zeta"), repo("alpha"), repo("Beta"), repo("alpha2"), repo("mid")]);
    assert_eq!(names(&listed), vec!["Beta", "alpha", "alpha2", "mid", "zeta"]);
    assert!(list_discovered(vec![]).is_empty());
    assert_eq!(names(&list_discovered(vec![repo("one")])), vec!["one"]);
}

#[test]
fn repos_of_the_same_name_keep_their_order() {
    let first = KeystoneRepo { name: "same".to_string(), path: PathBuf::from("/first") };
    let second = KeystoneRepo { name: "same".to_string(), path: PathBuf::from("/second") };
    let listed = list_discovered(vec![repo("z"), first.clone(), second.clone(), repo("a")]);
    assert_eq!(listed, vec![repo("a"), first, second, repo("z")]);
}

#[test]
fn cursor_column_stays_inside_the_box() {
    let mut input = TextInput::new();
    assert_eq!(input.cursor_column(10, 20), Some(11));
    for c in "hello".chars() {
        input.handle_key(KeyEvent::plain(KeyCode::Char(c)));
    }
    assert_eq!(input.cursor_column(10, 20), Some(16));
    assert_eq!(input.cursor_column(0, 8), Some(6));
    assert_eq!(input.cursor_column(0, 7), None);
    assert_eq!(input.cursor_column(0, 1), None);
    assert_eq!(input.cursor_column(0, 0), None);
    assert_eq!(input.cursor_column(65529, 100), Some(65535));
    assert_eq!(input.cursor_column(65530, 100), None);
}

#[test]
fn hosts_are_listed_with_their_system() {
    let with_system = HostInfo {
        name: "server".to_string(),
        system: Some("x86_64-linux".to_string()),
        keystone_modules: vec![],
        config_files: vec![],
    };
    let without = HostInfo { name: "laptop".to_string(), system: None, keystone_modules: vec![], config_files: vec![] };
    assert_eq!(host_line(&with_system), "  server  (x86_64-linux)");
    assert_eq!(host_line(&without), "  laptop");
    let screen = HostsScreen::new("infra".to_string(), vec![with_system.clone()]);
    assert_eq!(screen.title(), "Hosts - infra");
    assert_eq!(HostDetailScreen::new(with_system).title(), "Host: server");
}
