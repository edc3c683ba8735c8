use keystone_tui::runner::message::{BuildMessage, BuildResult};
use keystone_tui::runner::screen::BuildScreen;
use tokio::sync::mpsc::{unbounded_channel, UnboundedSender};
use tokio_util::sync::CancellationToken;

fn screen() -> (BuildScreen, UnboundedSender<BuildMessage>, CancellationToken) {
    let (tx, rx) = unbounded_channel();
    let token = CancellationToken::new();
    (BuildScreen::new("myhost".to_string(), rx, token.clone()), tx, token)
}

fn line(text: &str) -> BuildMessage {
    BuildMessage::Output(text.to_string())
}

fn numbered(count: usize) -> Vec<String> {
    (0..count).map(|i| format!("line {}", i)).collect()
}

fn filled(count: usize) -> (BuildScreen, UnboundedSender<BuildMessage>, CancellationToken) {
    let (mut screen, tx, token) = screen();
    for text in numbered(count) {
        tx.send(BuildMessage::Output(text)).unwrap();
    }
    screen.poll();
    (screen, tx, token)
}

#[test]
fn new_screen_is_empty_and_tracks_the_bottom() {
    let (screen, _tx, _token) = screen();
    assert!(!screen.is_finished());
    assert!(screen.auto_scroll());
    assert_eq!(screen.scroll_offset(), 0);
    assert!(screen.output_lines().is_empty());
    assert_eq!(screen.result(), &None);
    assert_eq!(screen.host_name(), "myhost");
    let frame = screen.render(10);
    assert_eq!(frame.top, 0);
    assert!(frame.lines.is_empty());
}

#[test]
fn poll_on_an_empty_channel_changes_nothing() {
    let (mut screen, _tx, _token) = screen();
    screen.poll();
    assert!(screen.output_lines().is_empty());
    assert!(!screen.is_finished());
}

#[test]
fn poll_takes_every_waiting_message_in_order() {
    let (mut screen, tx, _token) = screen();
    tx.send(line("first")).unwrap();
    tx.send(line("second")).unwrap();
    tx.send(line("third")).unwrap();
    screen.poll();
    assert_eq!(screen.output_lines(), &vec!["first", "second", "third"]);
    assert!(!screen.is_finished());
    tx.send(line("fourth")).unwrap();
    screen.poll();
    assert_eq!(screen.output_lines(), &vec!["first", "second", "third", "fourth"]);
}

#[test]
fn poll_after_the_senders_are_gone_still_drains() {
    let (mut screen, tx, _token) = screen();
    tx.send(line("last words")).unwrap();
    tx.send(BuildMessage::Finished(BuildResult::Success)).unwrap();
    drop(tx);
    screen.poll();
    assert_eq!(screen.output_lines(), &vec!["last words"]);
    assert_eq!(screen.result(), &Some(BuildResult::Success));
    screen.poll();
    assert_eq!(screen.output_lines(), &vec!["last words"]);
}

#[test]
fn finished_sets_the_outcome() {
    let (mut screen, tx, _token) = screen();
    tx.send(line("building")).unwrap();
    tx.send(BuildMessage::Finished(BuildResult::Failed(2))).unwrap();
    screen.poll();
    assert!(screen.is_finished());
    assert_eq!(screen.result(), &Some(BuildResult::Failed(2)));
    assert_eq!(screen.output_lines(), &vec!["building"]);
}

#[test]
fn a_second_finished_is_ignored() {
    let (mut screen, _tx, _token) = screen();
    screen.handle_message(BuildMessage::Finished(BuildResult::Cancelled));
    screen.handle_message(BuildMessage::Finished(BuildResult::Success));
    screen.handle_message(BuildMessage::Finished(BuildResult::SpawnError("late".to_string())));
    assert_eq!(screen.result(), &Some(BuildResult::Cancelled));
    assert!(screen.output_lines().is_empty());
}

#[test]
fn spawn_error_text_is_the_last_log_content() {
    let (mut screen, _tx, _token) = screen();
    screen.handle_message(BuildMessage::Finished(BuildResult::SpawnError(
        "Failed to start nixos-rebuild: not found".to_string(),
    )));
    assert_eq!(
        screen.result(),
        &Some(BuildResult::SpawnError("Failed to start nixos-rebuild: not found".to_string()))
    );
    assert_eq!(screen.output_lines(), &vec!["Failed to start nixos-rebuild: not found"]);
}

#[test]
fn process_error_text_is_the_last_log_content() {
    let (mut screen, _tx, _token) = screen();
    screen.handle_message(line("$ nixos-rebuild build --flake .#myhost"));
    screen.handle_message(BuildMessage::Finished(BuildResult::ProcessError(
        "Process error: no child".to_string(),
    )));
    assert_eq!(
        screen.output_lines(),
        &vec!["$ nixos-rebuild build --flake .#myhost", "Process error: no child"]
    );
    assert!(screen.is_finished());
}

#[test]
fn cancel_signals_the_token() {
    let (mut screen, _tx, token) = screen();
    assert!(!token.is_cancelled());
    screen.cancel();
    assert!(token.is_cancelled());
    assert!(!screen.is_finished());
}

#[test]
fn cancel_twice_is_cancel_once() {
    let (mut screen, tx, token) = screen();
    screen.cancel();
    screen.cancel();
    assert!(token.is_cancelled());
    tx.send(BuildMessage::Finished(BuildResult::Cancelled)).unwrap();
    screen.poll();
    assert_eq!(screen.result(), &Some(BuildResult::Cancelled));
    screen.cancel();
    assert_eq!(screen.result(), &Some(BuildResult::Cancelled));
}

#[test]
fn cancel_after_the_end_gives_no_signal() {
    let (mut screen, _tx, token) = screen();
    screen.handle_message(BuildMessage::Finished(BuildResult::Success));
    screen.cancel();
    assert!(!token.is_cancelled());
    assert_eq!(screen.result(), &Some(BuildResult::Success));
}

#[test]
fn scroll_up_leaves_the_live_edge() {
    let (mut screen, _tx, _token) = screen();
    screen.scroll_up();
    assert!(!screen.auto_scroll());
    assert_eq!(screen.scroll_offset(), 1);
    screen.scroll_up();
    assert_eq!(screen.scroll_offset(), 2);
}

#[test]
fn scroll_down_to_the_boundary_resumes_tracking() {
    let (mut screen, _tx, _token) = screen();
    screen.scroll_up();
    screen.scroll_up();
    screen.scroll_down();
    assert!(!screen.auto_scroll());
    assert_eq!(screen.scroll_offset(), 1);
    screen.scroll_down();
    assert!(screen.auto_scroll());
    assert_eq!(screen.scroll_offset(), 0);
    screen.scroll_down();
    assert!(screen.auto_scroll());
    assert_eq!(screen.scroll_offset(), 0);
}

#[test]
fn scroll_offset_stops_at_its_largest_value() {
    let (mut screen, _tx, _token) = screen();
    for _ in 0..70000 {
        screen.scroll_up();
    }
    assert_eq!(screen.scroll_offset(), 65535);
    assert!(!screen.auto_scroll());
    for _ in 0..70000 {
        screen.scroll_down();
    }
    assert_eq!(screen.scroll_offset(), 0);
    assert!(screen.auto_scroll());
}

#[test]
fn scroll_round_trip_restores_the_rendering() {
    for count in [0usize, 1, 3, 7, 40] {
        let (mut screen, _tx, _token) = filled(25);
        let before = screen.render(10);
        for _ in 0..count {
            screen.scroll_up();
        }
        for _ in 0..count {
            screen.scroll_down();
        }
        assert!(screen.auto_scroll());
        assert_eq!(screen.scroll_offset(), 0);
        assert_eq!(screen.render(10), before);
    }
}

#[test]
fn auto_scroll_shows_the_newest_line_last() {
    let (mut screen, tx, _token) = screen();
    for (index, text) in numbered(30).into_iter().enumerate() {
        tx.send(BuildMessage::Output(text.clone())).unwrap();
        screen.poll();
        let frame = screen.render(8);
        assert_eq!(frame.lines.last(), Some(&text));
        if index + 1 >= 8 {
            assert_eq!(frame.lines.len(), 8);
            assert_eq!(frame.top, index + 1 - 8);
        }
    }
}

#[test]
fn render_with_auto_scroll_tails_the_log() {
    let (screen, _tx, _token) = filled(25);
    let frame = screen.render(10);
    assert_eq!(frame.top, 15);
    assert_eq!(frame.lines, numbered(25)[15..25].to_vec());
}

#[test]
fn render_scrolled_up_moves_the_window_back() {
    let (mut screen, _tx, _token) = filled(25);
    screen.scroll_up();
    screen.scroll_up();
    screen.scroll_up();
    let frame = screen.render(10);
    assert_eq!(frame.top, 12);
    assert_eq!(frame.lines, numbered(25)[12..22].to_vec());
}

#[test]
fn render_scrolled_past_the_start_is_floored_at_zero() {
    let (mut screen, _tx, _token) = filled(25);
    for _ in 0..100 {
        screen.scroll_up();
    }
    let frame = screen.render(10);
    assert_eq!(frame.top, 0);
    assert_eq!(frame.lines, numbered(25)[0..10].to_vec());
}

#[test]
fn render_shows_everything_when_it_fits() {
    let (mut screen, _tx, _token) = filled(4);
    let frame = screen.render(10);
    assert_eq!(frame.top, 0);
    assert_eq!(frame.lines, numbered(4));
    screen.scroll_up();
    let frame = screen.render(10);
    assert_eq!(frame.top, 0);
    assert_eq!(frame.lines, numbered(4));
}

#[test]
fn render_with_no_height_shows_nothing() {
    let (screen, _tx, _token) = filled(5);
    let frame = screen.render(0);
    assert_eq!(frame.top, 5);
    assert!(frame.lines.is_empty());
}

#[test]
fn render_does_not_change_the_screen() {
    let (mut screen, _tx, _token) = filled(12);
    screen.scroll_up();
    let first = screen.render(5);
    let second = screen.render(5);
    assert_eq!(first, second);
    assert_eq!(screen.scroll_offset(), 1);
    assert_eq!(screen.output_lines().len(), 12);
}

#[test]
fn output_keeps_arriving_while_scrolled_up() {
    let (mut screen, tx, _token) = filled(20);
    screen.scroll_up();
    let before = screen.render(5);
    assert_eq!(before.top, 14);
    tx.send(line("newer")).unwrap();
    screen.poll();
    assert!(!screen.auto_scroll());
    assert_eq!(screen.scroll_offset(), 1);
    assert_eq!(screen.render(5).top, 15);
}

#[test]
fn title_names_the_host_and_the_state() {
    let (mut screen, _tx, _token) = screen();
    assert_eq!(screen.status_indicator(), " (building...)");
    assert_eq!(screen.title(), "Building: myhost (building...)");
    screen.handle_message(BuildMessage::Finished(BuildResult::Success));
    assert_eq!(screen.title(), "Building: myhost (success)");
}

#[test]
fn cancelled_reads_differently_from_failed() {
    let (mut failed, _tx, _token) = screen();
    failed.handle_message(BuildMessage::Finished(BuildResult::Failed(1)));
    let (mut cancelled, _tx2, _token2) = screen();
    cancelled.handle_message(BuildMessage::Finished(BuildResult::Cancelled));
    assert_eq!(failed.status_indicator(), " (failed)");
    assert_eq!(cancelled.status_indicator(), " (cancelled)");
    assert_ne!(failed.title(), cancelled.title());
    let (mut errored, _tx3, _token3) = screen();
    errored.handle_message(BuildMessage::Finished(BuildResult::SpawnError("x".to_string())));
    assert_eq!(errored.status_indicator(), " (error)");
    let (mut broken, _tx4, _token4) = screen();
    broken.handle_message(BuildMessage::Finished(BuildResult::ProcessError("x".to_string())));
    assert_eq!(broken.status_indicator(), " (error)");
}

#[test]
fn help_text_follows_the_state() {
    let (mut screen, _tx, _token) = screen();
    assert_eq!(screen.help_text(), "↑/↓: scroll • Esc: cancel");
    screen.handle_message(BuildMessage::Finished(BuildResult::Success));
    assert_eq!(screen.help_text(), "Esc: back • q: quit");
}

#[test]
fn build_result_clone_is_equal() {
    for result in [
        BuildResult::Success,
        BuildResult::Failed(-1),
        BuildResult::Cancelled,
        BuildResult::SpawnError("a".to_string()),
        BuildResult::ProcessError("b".to_string()),
    ] {
        assert_eq!(result.clone(), result);
    }
}

#[test]
fn an_opened_screen_is_tied_to_its_supervisor_side() {
    let (mut screen, tx, token) = BuildScreen::open("myhost".to_string());
    assert_eq!(screen.host_name(), "myhost");
    assert!(screen.output_lines().is_empty());
    assert!(screen.auto_scroll());
    tx.send(line("from the supervisor")).unwrap();
    screen.poll();
    assert_eq!(screen.output_lines(), &vec!["from the supervisor"]);
    assert!(!token.is_cancelled());
    screen.cancel();
    assert!(token.is_cancelled());
}
