//! What each screen of the infrastructure dashboard does with a key press.

use vstd::prelude::*;
use crate::keys::{KeyCode, KeyEvent};
use crate::nix::{HostInfo, HostView};
use crate::runner::screen::BuildScreen;
use crate::runner::viewport::Viewport;
use crate::screens::host_detail::HostDetailScreen;
use crate::screens::hosts::{selection_next, selection_previous, HostsScreen};
use crate::screens::welcome::{
    WelcomeAction, WelcomeActionView, WelcomeScreen, WelcomeState, WelcomeView,
};

verus! {

/// Actions that require mutating app-level state (screen transitions).
#[derive(Debug, PartialEq, Eq)]
pub enum AppAction {
    WelcomeAction(WelcomeAction),
    GoToHostDetail(HostInfo),
    GoToHosts,
    StartBuild(String),
}

/// An application action, over plain text.
pub enum AppActionView {
    WelcomeAction(WelcomeActionView),
    GoToHostDetail(HostView),
    GoToHosts,
    StartBuild(Seq<char>),
}

impl View for AppAction {
    type V = AppActionView;

    open spec fn view(&self) -> AppActionView {
        match self {
            AppAction::WelcomeAction(action) => AppActionView::WelcomeAction(action@),
            AppAction::GoToHostDetail(host) => AppActionView::GoToHostDetail(host@),
            AppAction::GoToHosts => AppActionView::GoToHosts,
            AppAction::StartBuild(host_name) => AppActionView::StartBuild(host_name@),
        }
    }
}

/// The view of an optional action.
pub open spec fn requested(action: Option<AppAction>) -> Option<AppActionView> {
    match action {
        Some(action) => Some(action@),
        None => None,
    }
}

/// Whether the key moves a selection up: the arrow or `k`.
pub open spec fn is_up(code: KeyCode) -> bool {
    code == KeyCode::Up || code == KeyCode::Char('k')
}

/// Whether the key moves a selection down: the arrow or `j`.
pub open spec fn is_down(code: KeyCode) -> bool {
    code == KeyCode::Down || code == KeyCode::Char('j')
}

/// Whether the welcome screen is taking text.
pub open spec fn in_input_state(state: WelcomeState) -> bool {
    state == WelcomeState::InputGitUrl || state == WelcomeState::InputRepoName
}

/// The welcome screen after a key press.
pub open spec fn welcome_after_key(view: WelcomeView, key: KeyEvent) -> WelcomeView {
    if in_input_state(view.state) {
        if key.code == KeyCode::Enter {
            view.confirm()
        } else if key.code == KeyCode::Esc {
            view.cancel()
        } else {
            view.type_key(key)
        }
    } else if key.code == KeyCode::Esc {
        if view.state == WelcomeState::SelectAction {
            view
        } else {
            view.cancel()
        }
    } else if is_up(key.code) || is_down(key.code) {
        view.toggle()
    } else if key.code == KeyCode::Enter {
        view.confirm()
    } else {
        view
    }
}

/// Whether a key press on the welcome screen asks to quit: `q` or Escape
/// while an action is being chosen.
pub open spec fn welcome_key_quits(view: WelcomeView, key: KeyEvent) -> bool {
    view.state == WelcomeState::SelectAction && (key.code == KeyCode::Char('q') || key.code
        == KeyCode::Esc)
}

/// What a key press on the welcome screen asks the application to do.
pub open spec fn welcome_key_action(view: WelcomeView, key: KeyEvent) -> Option<AppActionView> {
    if key.code == KeyCode::Enter {
        Some(AppActionView::WelcomeAction(view.confirm_action()))
    } else {
        None
    }
}

/// Handle input for the welcome screen.
pub fn handle_welcome_input(
    welcome: &mut WelcomeScreen,
    key: KeyEvent,
    should_quit: &mut bool,
) -> (action: Option<AppAction>)
    ensures
        final(welcome)@ == welcome_after_key(old(welcome)@, key),
        *final(should_quit) == (*old(should_quit) || welcome_key_quits(old(welcome)@, key)),
        requested(action) == welcome_key_action(old(welcome)@, key),
{
    let in_input_state = match welcome.state() {
        WelcomeState::InputGitUrl => true,
        WelcomeState::InputRepoName => true,
        _ => false,
    };

    if in_input_state {
        match key.code {
            KeyCode::Enter => {
                return Some(AppAction::WelcomeAction(welcome.confirm()));
            },
            KeyCode::Esc => {
                welcome.cancel();
            },
            _ => {
                welcome.handle_text_input(key);
            },
        }
    } else {
        match key.code {
            KeyCode::Char('q') => {
                if *welcome.state() == WelcomeState::SelectAction {
                    *should_quit = true;
                }
            },
            KeyCode::Esc => {
                if *welcome.state() == WelcomeState::SelectAction {
                    *should_quit = true;
                } else {
                    welcome.cancel();
                }
            },
            KeyCode::Up | KeyCode::Char('k') => {
                welcome.previous();
            },
            KeyCode::Down | KeyCode::Char('j') => {
                welcome.next();
            },
            KeyCode::Enter => {
                return Some(AppAction::WelcomeAction(welcome.confirm()));
            },
            _ => {},
        }
    }
    None
}

/// Handle input for the hosts screen.
pub fn handle_hosts_input(
    hosts: &mut HostsScreen,
    key: KeyEvent,
    should_quit: &mut bool,
) -> (action: Option<AppAction>)
    ensures
        final(hosts).repo() == old(hosts).repo(),
        final(hosts).listed() == old(hosts).listed(),
        final(hosts).selection() == if is_up(key.code) {
            selection_previous(old(hosts).selection(), old(hosts).listed().len())
        } else if is_down(key.code) {
            selection_next(old(hosts).selection(), old(hosts).listed().len())
        } else {
            old(hosts).selection()
        },
        *final(should_quit) == (*old(should_quit) || key.code == KeyCode::Char('q') || key.code
            == KeyCode::Esc),
        requested(action) == if key.code == KeyCode::Enter {
            match old(hosts).selection() {
                Some(index) => Some(
                    AppActionView::GoToHostDetail(old(hosts).listed()[index as int]@),
                ),
                None => None,
            }
        } else {
            None
        },
{
    match key.code {
        KeyCode::Char('q') | KeyCode::Esc => {
            *should_quit = true;
            None
        },
        KeyCode::Up | KeyCode::Char('k') => {
            hosts.previous();
            None
        },
        KeyCode::Down | KeyCode::Char('j') => {
            hosts.next();
            None
        },
        KeyCode::Enter => {
            match hosts.selected_host() {
                Some(host) => Some(AppAction::GoToHostDetail(host.clone())),
                None => None,
            }
        },
        _ => None,
    }
}

/// Handle input for the host detail screen.
pub fn handle_host_detail_input(
    detail: &mut HostDetailScreen,
    key: KeyEvent,
    should_quit: &mut bool,
) -> (action: Option<AppAction>)
    ensures
        final(detail).shown() == old(detail).shown(),
        *final(should_quit) == (*old(should_quit) || key.code == KeyCode::Char('q')),
        requested(action) == if key.code == KeyCode::Esc {
            Some(AppActionView::GoToHosts)
        } else if key.code == KeyCode::Char('b') {
            Some(AppActionView::StartBuild(old(detail).shown().name@))
        } else {
            None
        },
{
    match key.code {
        KeyCode::Char('q') => {
            *should_quit = true;
            None
        },
        KeyCode::Esc => Some(AppAction::GoToHosts),
        KeyCode::Char('b') => {
            let host_name = detail.host().name.clone();
            Some(AppAction::StartBuild(host_name))
        },
        _ => None,
    }
}

/// The build screen after a key press: Escape stops a running build, the
/// arrows and `k`/`j` scroll.
pub open spec fn build_after_key(viewport: Viewport, code: KeyCode) -> Viewport {
    if code == KeyCode::Esc {
        viewport.cancel()
    } else if is_up(code) {
        viewport.scroll_up()
    } else if is_down(code) {
        viewport.scroll_down()
    } else {
        viewport
    }
}

/// Handle input for the build screen.
pub fn handle_build_input(
    build: &mut BuildScreen,
    key: KeyEvent,
    should_quit: &mut bool,
) -> (action: Option<AppAction>)
    ensures
        final(build)@ == build_after_key(old(build)@, key.code),
        final(build).host() == old(build).host(),
        *final(should_quit) == (*old(should_quit) || (key.code == KeyCode::Char('q') && old(
            build,
        )@.is_finished())),
        requested(action) == if key.code == KeyCode::Esc && old(build)@.is_finished() {
            Some(AppActionView::GoToHosts)
        } else {
            None
        },
{
    match key.code {
        KeyCode::Char('q') => {
            if build.is_finished() {
                *should_quit = true;
            }
            None
        },
        KeyCode::Esc => {
            if build.is_finished() {
                Some(AppAction::GoToHosts)
            } else {
                build.cancel();
                None
            }
        },
        KeyCode::Up | KeyCode::Char('k') => {
            build.scroll_up();
            None
        },
        KeyCode::Down | KeyCode::Char('j') => {
            build.scroll_down();
            None
        },
        _ => None,
    }
}

} // verus!
