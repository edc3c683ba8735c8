//! What frames every screen of the cross-realm manager: the header above
//! it and the key hints below it.

use vstd::prelude::*;
use crate::defs::backup::BackupPhase;
use crate::ha::app::{App, Screen, ScreenView};

verus! {

/// The title of a screen.
pub open spec fn screen_title(screen: ScreenView) -> Seq<char> {
    match screen {
        ScreenView::Home => "Keystone Cross-Realm Manager"@,
        ScreenView::GrantList => "Grant Management"@,
        ScreenView::GrantCreate { .. } => "Create Grant"@,
        ScreenView::GrantDetail { .. } => "Grant Details"@,
        ScreenView::RealmList => "Connected Realms"@,
        ScreenView::RealmConnect { .. } => "Connect to Realm"@,
        ScreenView::RealmDetail { .. } => "Realm Details"@,
        ScreenView::WorkloadList => "Workloads"@,
        ScreenView::WorkloadDeploy { .. } => "Deploy Workload"@,
        ScreenView::WorkloadDetail { .. } => "Workload Details"@,
        ScreenView::SuperEntityList => "Super Entities"@,
        ScreenView::SuperEntityCreate => "Create Super Entity"@,
        ScreenView::SuperEntityDetail { .. } => "Super Entity Details"@,
        ScreenView::BackupList => "Backup Status"@,
        ScreenView::BackupVerify { .. } => "Verify Backup"@,
    }
}

/// How the connection to the cluster reads in the header.
pub open spec fn connection_status(connected: bool) -> Seq<char> {
    if connected {
        " [K8s: Connected]"@
    } else {
        " [K8s: Disconnected]"@
    }
}

/// The key hints of a screen.
pub open spec fn screen_hints(screen: ScreenView) -> Seq<char> {
    match screen {
        ScreenView::Home => "↑↓/jk: Navigate | Enter: Select | q: Quit | ?: Help"@,
        ScreenView::GrantCreate { .. } => "Tab: Next field | Esc: Cancel | Enter: Confirm"@,
        ScreenView::WorkloadDeploy { .. } => "Tab: Next field | Esc: Cancel | Enter: Confirm"@,
        ScreenView::RealmConnect { .. } => "Tab: Next field | Esc: Cancel | Enter: Submit"@,
        ScreenView::SuperEntityCreate => "Tab: Next field | Esc: Cancel | Enter: Submit"@,
        _ => "↑↓/jk: Navigate | Enter: Select | Esc: Back | q: Quit | ?: Help"@,
    }
}

/// What the status bar adds while something is loading.
pub open spec fn loading_indicator(loading: bool) -> Seq<char> {
    if loading {
        " [Loading...]"@
    } else {
        Seq::empty()
    }
}

/// The mark that stands for the state of a backup.
pub open spec fn backup_status_icon(phase: BackupPhase) -> Seq<char> {
    match phase {
        BackupPhase::Healthy => "✓"@,
        BackupPhase::Degraded => "⚠"@,
        BackupPhase::Verifying => "⟳"@,
        BackupPhase::Failed => "✗"@,
        BackupPhase::Unknown => "?"@,
    }
}

/// What the verification screen says of the state of a backup.
pub open spec fn backup_status_text(phase: BackupPhase) -> Seq<char> {
    match phase {
        BackupPhase::Healthy => "All copies verified and healthy"@,
        BackupPhase::Degraded => "Some copies missing or degraded"@,
        BackupPhase::Verifying => "Verification in progress..."@,
        BackupPhase::Failed => "Verification failed"@,
        BackupPhase::Unknown => "Status unknown"@,
    }
}

impl Screen {
    /// The title of the screen.
    pub fn title(&self) -> (title: &'static str)
        ensures
            title@ == screen_title(self@),
    {
        match self {
            Screen::Home => "Keystone Cross-Realm Manager",
            Screen::GrantList => "Grant Management",
            Screen::GrantCreate { .. } => "Create Grant",
            Screen::GrantDetail { .. } => "Grant Details",
            Screen::RealmList => "Connected Realms",
            Screen::RealmConnect { .. } => "Connect to Realm",
            Screen::RealmDetail { .. } => "Realm Details",
            Screen::WorkloadList => "Workloads",
            Screen::WorkloadDeploy { .. } => "Deploy Workload",
            Screen::WorkloadDetail { .. } => "Workload Details",
            Screen::SuperEntityList => "Super Entities",
            Screen::SuperEntityCreate => "Create Super Entity",
            Screen::SuperEntityDetail { .. } => "Super Entity Details",
            Screen::BackupList => "Backup Status",
            Screen::BackupVerify { .. } => "Verify Backup",
        }
    }

    /// The key hints of the screen.
    pub fn hints(&self) -> (hints: &'static str)
        ensures
            hints@ == screen_hints(self@),
    {
        match self {
            Screen::Home => "↑↓/jk: Navigate | Enter: Select | q: Quit | ?: Help",
            Screen::GrantCreate { .. } => "Tab: Next field | Esc: Cancel | Enter: Confirm",
            Screen::WorkloadDeploy { .. } => "Tab: Next field | Esc: Cancel | Enter: Confirm",
            Screen::RealmConnect { .. } => "Tab: Next field | Esc: Cancel | Enter: Submit",
            Screen::SuperEntityCreate => "Tab: Next field | Esc: Cancel | Enter: Submit",
            _ => "↑↓/jk: Navigate | Enter: Select | Esc: Back | q: Quit | ?: Help",
        }
    }
}

impl App {
    /// The text of the header: the title of the screen, and whether the
    /// cluster is connected.
    pub fn header_text(&self) -> (text: String)
        ensures
            text@ == screen_title(self@.screen) + connection_status(self.connected),
    {
        let mut text = String::from_str(self.screen.title());
        text.append(
            if self.connected {
                " [K8s: Connected]"
            } else {
                " [K8s: Disconnected]"
            },
        );
        text
    }

    /// The text of the status bar: the key hints of the screen, and a mark
    /// while something is loading.
    pub fn status_bar_text(&self) -> (text: String)
        ensures
            text@ == screen_hints(self@.screen) + loading_indicator(self.loading),
    {
        let mut text = String::from_str(self.screen.hints());
        if self.loading {
            text.append(" [Loading...]");
        }
        assert(text@ =~= screen_hints(self@.screen) + loading_indicator(self.loading));
        text
    }
}

impl BackupPhase {
    /// The mark that stands for the state.
    pub fn icon(&self) -> (icon: &'static str)
        ensures
            icon@ == backup_status_icon(*self),
    {
        match self {
            BackupPhase::Healthy => "✓",
            BackupPhase::Degraded => "⚠",
            BackupPhase::Verifying => "⟳",
            BackupPhase::Failed => "✗",
            BackupPhase::Unknown => "?",
        }
    }

    /// What the verification screen says of the state.
    pub fn description(&self) -> (text: &'static str)
        ensures
            text@ == backup_status_text(*self),
    {
        match self {
            BackupPhase::Healthy => "All copies verified and healthy",
            BackupPhase::Degraded => "Some copies missing or degraded",
            BackupPhase::Verifying => "Verification in progress...",
            BackupPhase::Failed => "Verification failed",
            BackupPhase::Unknown => "Status unknown",
        }
    }
}

} // verus!
