//! Application state of the infrastructure dashboard: the configuration,
//! the screen on display, and the repository it works on.

use vstd::prelude::*;
use std::path::PathBuf;
use crate::config::{AppConfig, KeystoneRepo};
use crate::nix::{FlakeInfo, HostInfo};
use crate::runner::screen::BuildScreen;
use crate::screens::host_detail::HostDetailScreen;
use crate::screens::hosts::HostsScreen;
use crate::screens::welcome::{WelcomeScreen, WelcomeState, WelcomeView};

verus! {

/// Represents the different screens/views in the TUI.
pub enum AppScreen {
    Welcome(WelcomeScreen),
    Hosts(HostsScreen),
    HostDetail(HostDetailScreen),
    Build(BuildScreen),
}

/// Application state for the Keystone TUI.
pub struct App {
    pub should_quit: bool,
    pub config: AppConfig,
    pub current_screen: AppScreen,
    /// Index of the currently active repo in config.repos
    pub active_repo_index: Option<usize>,
}

/// Whether `screen` is the hosts screen of the repository `repo` over
/// `hosts`, with the first host selected if there is one.
pub open spec fn shows_hosts(screen: AppScreen, repo: Seq<char>, hosts: Seq<HostInfo>) -> bool {
    match screen {
        AppScreen::Hosts(shown) => {
            &&& shown.repo() == repo
            &&& shown.listed() == hosts
            &&& shown.selection() == if hosts.len() == 0 {
                None
            } else {
                Some(0usize)
            }
        },
        _ => false,
    }
}

/// Whether `screen` is the welcome screen in the state `view`.
pub open spec fn shows_welcome(screen: AppScreen, view: WelcomeView) -> bool {
    match screen {
        AppScreen::Welcome(shown) => shown@ == view,
        _ => false,
    }
}

/// Whether `screen` is the detail screen of `host`.
pub open spec fn shows_host_detail(screen: AppScreen, host: HostInfo) -> bool {
    match screen {
        AppScreen::HostDetail(shown) => shown.shown() == host,
        _ => false,
    }
}

/// What the welcome screen says when a repository has been imported.
pub open spec fn imported_text(name: Seq<char>) -> Seq<char> {
    "Repository '"@ + name + "' imported successfully!"@
}

/// What the welcome screen says when a repository has been created.
pub open spec fn created_text(name: Seq<char>) -> Seq<char> {
    "Repository '"@ + name + "' created successfully!"@
}

/// What the welcome screen says when an import has failed.
pub open spec fn import_failed_text(reason: Seq<char>) -> Seq<char> {
    "Failed to import repository: "@ + reason
}

/// What the welcome screen says when a repository could not be created.
pub open spec fn create_failed_text(reason: Seq<char>) -> Seq<char> {
    "Failed to create repository: "@ + reason
}

impl App {
    /// The hosts screen over the hosts of a repository's flake.
    pub fn load_hosts_screen(repo: &KeystoneRepo, flake: FlakeInfo) -> (screen: HostsScreen)
        ensures
            screen.repo() == repo.name@,
            screen.listed() == flake.hosts@,
            screen.selection() == if flake.hosts@.len() == 0 {
                None
            } else {
                Some(0usize)
            },
    {
        HostsScreen::new(repo.name.clone(), flake.hosts)
    }

    /// The application as it starts. Without a configured repository it
    /// opens on the welcome screen; otherwise on the hosts of the first
    /// repository, which the caller has read from its flake (none where the
    /// flake could not be read).
    pub fn new(config: AppConfig, first_repo_hosts: Vec<HostInfo>) -> (app: Self)
        ensures
            !app.should_quit,
            app.config == config,
            config.repos@.len() == 0 ==> app.active_repo_index is None && shows_welcome(
                app.current_screen,
                WelcomeView::initial(),
            ),
            config.repos@.len() > 0 ==> app.active_repo_index == Some(0usize) && shows_hosts(
                app.current_screen,
                config.repos@[0].name@,
                first_repo_hosts@,
            ),
    {
        if config.repos.len() == 0 {
            App {
                should_quit: false,
                config,
                current_screen: AppScreen::Welcome(WelcomeScreen::new()),
                active_repo_index: None,
            }
        } else {
            // Use the first repo as default
            let screen = HostsScreen::new(config.repos[0].name.clone(), first_repo_hosts);
            App {
                should_quit: false,
                config,
                current_screen: AppScreen::Hosts(screen),
                active_repo_index: Some(0),
            }
        }
    }

    /// Transition to the hosts screen for a repo, whose hosts the caller has
    /// read from its flake. An index without a repository changes nothing.
    pub fn go_to_hosts(&mut self, repo_index: usize, flake: FlakeInfo)
        ensures
            final(self).should_quit == old(self).should_quit,
            final(self).config == old(self).config,
            repo_index >= old(self).config.repos@.len() ==> *final(self) == *old(self),
            repo_index < old(self).config.repos@.len() ==> final(self).active_repo_index == Some(
                repo_index,
            ) && shows_hosts(
                final(self).current_screen,
                old(self).config.repos@[repo_index as int].name@,
                flake.hosts@,
            ),
    {
        if repo_index < self.config.repos.len() {
            let screen = App::load_hosts_screen(&self.config.repos[repo_index], flake);
            self.current_screen = AppScreen::Hosts(screen);
            self.active_repo_index = Some(repo_index);
        }
    }

    /// Get the path of the currently active repo.
    pub fn active_repo_path(&self) -> (path: Option<PathBuf>)
        ensures
            path == match self.active_repo_index {
                Some(index) => if index < self.config.repos@.len() {
                    Some(self.config.repos@[index as int].path)
                } else {
                    None
                },
                None => None,
            },
    {
        match self.active_repo_index {
            Some(index) => if index < self.config.repos.len() {
                Some(self.config.repos[index].path.clone())
            } else {
                None
            },
            None => None,
        }
    }

    /// The index of the repository added last; 0 where there is none.
    pub fn last_repo_index(&self) -> (index: usize)
        ensures
            index == if self.config.repos@.len() == 0 {
                0
            } else {
                self.config.repos@.len() - 1
            },
    {
        if self.config.repos.len() == 0 {
            0
        } else {
            self.config.repos.len() - 1
        }
    }

    /// Shows the details of `host`.
    pub fn go_to_host_detail(&mut self, host: HostInfo)
        ensures
            final(self).should_quit == old(self).should_quit,
            final(self).config == old(self).config,
            final(self).active_repo_index == old(self).active_repo_index,
            shows_host_detail(final(self).current_screen, host),
    {
        self.current_screen = AppScreen::HostDetail(HostDetailScreen::new(host));
    }

    /// A repository was imported or created: it joins the configuration, and
    /// the welcome screen, if it is on display, reports `message`.
    pub fn repo_added(&mut self, repo: KeystoneRepo, message: String)
        ensures
            final(self).should_quit == old(self).should_quit,
            final(self).active_repo_index == old(self).active_repo_index,
            match old(self).current_screen {
                AppScreen::Welcome(before) => final(self).config.repos@ == old(
                    self,
                ).config.repos@.push(repo) && shows_welcome(
                    final(self).current_screen,
                    WelcomeView {
                        state: WelcomeState::Success,
                        success_message: Some(message@),
                        ..before@
                    },
                ),
                _ => *final(self) == *old(self),
            },
    {
        match &mut self.current_screen {
            AppScreen::Welcome(welcome) => {
                self.config.repos.push(repo);
                welcome.set_success(message);
            },
            _ => {},
        }
    }

    /// An import or a creation failed: the welcome screen, if it is on
    /// display, reports `message`.
    pub fn repo_failed(&mut self, message: String)
        ensures
            final(self).should_quit == old(self).should_quit,
            final(self).active_repo_index == old(self).active_repo_index,
            final(self).config == old(self).config,
            match old(self).current_screen {
                AppScreen::Welcome(before) => shows_welcome(
                    final(self).current_screen,
                    WelcomeView {
                        state: WelcomeState::Error,
                        error_message: Some(message@),
                        ..before@
                    },
                ),
                _ => *final(self) == *old(self),
            },
    {
        match &mut self.current_screen {
            AppScreen::Welcome(welcome) => {
                welcome.set_error(message);
            },
            _ => {},
        }
    }
}

/// What the welcome screen says when `name` has been imported.
pub fn imported_message(name: &str) -> (text: String)
    ensures
        text@ == imported_text(name@),
{
    let mut text = String::from_str("Repository '");
    text.append(name);
    text.append("' imported successfully!");
    text
}

/// What the welcome screen says when `name` has been created.
pub fn created_message(name: &str) -> (text: String)
    ensures
        text@ == created_text(name@),
{
    let mut text = String::from_str("Repository '");
    text.append(name);
    text.append("' created successfully!");
    text
}

/// What the welcome screen says when an import has failed for `reason`.
pub fn import_failed_message(reason: &str) -> (text: String)
    ensures
        text@ == import_failed_text(reason@),
{
    let mut text = String::from_str("Failed to import repository: ");
    text.append(reason);
    text
}

/// What the welcome screen says when a creation has failed for `reason`.
pub fn create_failed_message(reason: &str) -> (text: String)
    ensures
        text@ == create_failed_text(reason@),
{
    let mut text = String::from_str("Failed to create repository: ");
    text.append(reason);
    text
}

} // verus!
