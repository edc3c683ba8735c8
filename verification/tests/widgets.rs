use keystone_tui::keys::{KeyCode, KeyEvent};
use keystone_tui::nix::HostInfo;
use keystone_tui::screens::host_detail::HostDetailScreen;
use keystone_tui::screens::hosts::HostsScreen;
use keystone_tui::ui::input::TextInput;
use keystone_tui::ui::menu::{MenuItem, SelectMenu};

fn press(input: &mut TextInput, code: KeyCode) -> bool {
    input.handle_key(KeyEvent::plain(code))
}

fn typed(text: &str) -> TextInput {
    let mut input = TextInput::new();
    for c in text.chars() {
        assert!(press(&mut input, KeyCode::Char(c)));
    }
    input
}

fn host(name: &str) -> HostInfo {
    HostInfo {
        name: name.to_string(),
        system: Some("x86_64-linux".to_string()),
        keystone_modules: vec!["desktop".to_string()],
        config_files: vec!["./configuration.nix".to_string()],
    }
}

#[test]
fn new_input_is_empty_and_unfocused() {
    let input = TextInput::new();
    assert_eq!(input.value(), "");
    assert_eq!(input.cursor_position(), 0);
    assert_eq!(input.placeholder(), "");
    assert!(!input.is_focused());
    let default = TextInput::default();
    assert_eq!(default.value(), "");
    assert!(!default.is_focused());
}

#[test]
fn placeholder_shows_while_empty_and_unfocused() {
    let mut input = TextInput::new().with_placeholder("my-infrastructure");
    assert_eq!(input.placeholder(), "my-infrastructure");
    assert_eq!(input.display_text(), "my-infrastructure");
    input.set_focused(true);
    assert!(input.is_focused());
    assert_eq!(input.display_text(), "");
    input.set_focused(false);
    input.set_value("abc");
    assert_eq!(input.display_text(), "abc");
}

#[test]
fn typing_inserts_at_the_cursor() {
    let mut input = typed("hllo");
    assert_eq!(input.value(), "hllo");
    assert_eq!(input.cursor_position(), 4);
    press(&mut input, KeyCode::Home);
    press(&mut input, KeyCode::Right);
    press(&mut input, KeyCode::Char('e'));
    assert_eq!(input.value(), "hello");
    assert_eq!(input.cursor_position(), 2);
}

#[test]
fn backspace_removes_before_the_cursor() {
    let mut input = typed("abc");
    assert!(press(&mut input, KeyCode::Backspace));
    assert_eq!(input.value(), "ab");
    assert_eq!(input.cursor_position(), 2);
    press(&mut input, KeyCode::Left);
    press(&mut input, KeyCode::Backspace);
    assert_eq!(input.value(), "b");
    assert_eq!(input.cursor_position(), 0);
    assert!(press(&mut input, KeyCode::Backspace));
    assert_eq!(input.value(), "b");
    assert_eq!(input.cursor_position(), 0);
}

#[test]
fn delete_removes_under_the_cursor() {
    let mut input = typed("abc");
    assert!(press(&mut input, KeyCode::Delete));
    assert_eq!(input.value(), "abc");
    press(&mut input, KeyCode::Home);
    press(&mut input, KeyCode::Delete);
    assert_eq!(input.value(), "bc");
    assert_eq!(input.cursor_position(), 0);
}

#[test]
fn cursor_stays_within_the_value() {
    let mut input = typed("ab");
    assert!(press(&mut input, KeyCode::Right));
    assert_eq!(input.cursor_position(), 2);
    press(&mut input, KeyCode::Left);
    press(&mut input, KeyCode::Left);
    assert!(press(&mut input, KeyCode::Left));
    assert_eq!(input.cursor_position(), 0);
    assert!(press(&mut input, KeyCode::End));
    assert_eq!(input.cursor_position(), 2);
}

#[test]
fn other_keys_are_not_consumed() {
    let mut input = typed("ab");
    for code in [KeyCode::Enter, KeyCode::Esc, KeyCode::Up, KeyCode::Down, KeyCode::Tab, KeyCode::BackTab, KeyCode::Other] {
        assert!(!press(&mut input, code));
    }
    assert_eq!(input.value(), "ab");
    assert_eq!(input.cursor_position(), 2);
}

#[test]
fn cursor_counts_characters() {
    let mut input = typed("né");
    assert_eq!(input.cursor_position(), 2);
    press(&mut input, KeyCode::Char('e'));
    assert_eq!(input.value(), "née");
    press(&mut input, KeyCode::Left);
    press(&mut input, KeyCode::Backspace);
    assert_eq!(input.value(), "ne");
    assert_eq!(input.cursor_position(), 1);
}

#[test]
fn set_value_puts_the_cursor_at_the_end() {
    let mut input = TextInput::new().with_placeholder("p");
    input.set_value("hello");
    assert_eq!(input.value(), "hello");
    assert_eq!(input.cursor_position(), 5);
    assert_eq!(input.placeholder(), "p");
    input.clear();
    assert_eq!(input.value(), "");
    assert_eq!(input.cursor_position(), 0);
    assert_eq!(input.placeholder(), "p");
}

#[test]
fn input_clone_is_the_same_input() {
    let mut input = typed("abc");
    input.set_focused(true);
    press(&mut input, KeyCode::Left);
    let copy = input.clone();
    assert_eq!(copy.value(), "abc");
    assert_eq!(copy.cursor_position(), 2);
    assert!(copy.is_focused());
}

fn menu(labels: &[&str]) -> SelectMenu<u32> {
    let mut items = Vec::new();
    for (index, label) in labels.iter().enumerate() {
        items.push(MenuItem { label: label.to_string(), value: 10 * index as u32 });
    }
    SelectMenu::new(items)
}

#[test]
fn menu_starts_at_the_first_item() {
    let menu = menu(&["a", "b", "c"]);
    assert_eq!(menu.selected_index(), 0);
    assert_eq!(menu.selected_value(), Some(&0));
    assert_eq!(menu.len(), 3);
    assert_eq!(menu.item(1).map(|item| item.label.as_str()), Some("b"));
    assert!(menu.item(3).is_none());
}

#[test]
fn menu_goes_round_in_both_directions() {
    let mut menu = menu(&["a", "b", "c"]);
    menu.next();
    assert_eq!(menu.selected_index(), 1);
    assert_eq!(menu.selected_value(), Some(&10));
    menu.next();
    menu.next();
    assert_eq!(menu.selected_index(), 0);
    menu.previous();
    assert_eq!(menu.selected_index(), 2);
    assert_eq!(menu.selected_value(), Some(&20));
    menu.previous();
    assert_eq!(menu.selected_index(), 1);
}

#[test]
fn empty_menu_has_no_selection() {
    let mut menu = menu(&[]);
    assert_eq!(menu.selected_value(), None);
    menu.next();
    menu.previous();
    assert_eq!(menu.selected_index(), 0);
    assert_eq!(menu.selected_value(), None);
}

#[test]
fn host_detail_shows_its_host() {
    let screen = HostDetailScreen::new(host("server"));
    assert_eq!(screen.host(), &host("server"));
    assert_eq!(screen.host().name, "server");
}

#[test]
fn hosts_screen_selects_the_first_host() {
    let screen = HostsScreen::new("infra".to_string(), vec![host("a"), host("b")]);
    assert_eq!(screen.repo_name(), "infra");
    assert_eq!(screen.hosts().len(), 2);
    assert_eq!(screen.selected_index(), Some(0));
    assert_eq!(screen.selected_host(), Some(&host("a")));
}

#[test]
fn hosts_screen_goes_round() {
    let mut screen = HostsScreen::new("infra".to_string(), vec![host("a"), host("b"), host("c")]);
    screen.next();
    assert_eq!(screen.selected_host(), Some(&host("b")));
    screen.next();
    screen.next();
    assert_eq!(screen.selected_index(), Some(0));
    screen.previous();
    assert_eq!(screen.selected_index(), Some(2));
    screen.previous();
    assert_eq!(screen.selected_host(), Some(&host("b")));
}

#[test]
fn hosts_screen_without_hosts_selects_nothing() {
    let mut screen = HostsScreen::new("infra".to_string(), vec![]);
    assert_eq!(screen.selected_index(), None);
    assert_eq!(screen.selected_host(), None);
    screen.next();
    screen.previous();
    assert_eq!(screen.selected_index(), None);
}

#[test]
fn host_clone_is_equal() {
    let first = host("x");
    assert_eq!(first.clone(), first);
    let bare = HostInfo { name: String::new(), system: None, keystone_modules: vec![], config_files: vec![] };
    assert_eq!(bare.clone(), bare);
}
