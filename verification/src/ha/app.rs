//! Application state and screen management of the cross-realm manager: the
//! screen on display, the way back, and the state of lists and forms.

use vstd::prelude::*;
use crate::defs::backup::Backup;
use crate::defs::grant::Grant;
use crate::defs::meta::name_or_empty;
use crate::defs::super_entity::SuperEntity;
use crate::defs::workload::Workload;
use crate::ha::realm::Realm;
use crate::text::optional_text;

verus! {

/// Steps in the grant creation wizard
#[derive(Clone, Copy, Debug, PartialEq, Eq, Structural)]
pub enum GrantStep {
    Grantee,
    Resources,
    Network,
    Confirm,
}

/// Steps in the workload deployment wizard
#[derive(Clone, Copy, Debug, PartialEq, Eq, Structural)]
pub enum DeployStep {
    SelectRealm,
    Configure,
    Review,
}

/// Methods for connecting to a realm
#[derive(Clone, Copy, Debug, PartialEq, Eq, Structural)]
pub enum ConnectionMethod {
    Tailscale,
    Headscale,
    Token,
}

/// All possible screens in the application
#[derive(Debug, PartialEq)]
pub enum Screen {
    /// Main menu / home screen
    Home,
    // Grant Management
    GrantList,
    GrantCreate { step: GrantStep },
    GrantDetail { id: String },
    // Realm Connections
    RealmList,
    RealmConnect { method: Option<ConnectionMethod> },
    RealmDetail { id: String },
    // Workloads
    WorkloadList,
    WorkloadDeploy { step: DeployStep },
    WorkloadDetail { id: String },
    // Super Entities
    SuperEntityList,
    SuperEntityCreate,
    SuperEntityDetail { id: String },
    // Backups
    BackupList,
    BackupVerify { id: String },
}

/// A screen, over plain text.
pub enum ScreenView {
    Home,
    GrantList,
    GrantCreate { step: GrantStep },
    GrantDetail { id: Seq<char> },
    RealmList,
    RealmConnect { method: Option<ConnectionMethod> },
    RealmDetail { id: Seq<char> },
    WorkloadList,
    WorkloadDeploy { step: DeployStep },
    WorkloadDetail { id: Seq<char> },
    SuperEntityList,
    SuperEntityCreate,
    SuperEntityDetail { id: Seq<char> },
    BackupList,
    BackupVerify { id: Seq<char> },
}

impl View for Screen {
    type V = ScreenView;

    open spec fn view(&self) -> ScreenView {
        match self {
            Screen::Home => ScreenView::Home,
            Screen::GrantList => ScreenView::GrantList,
            Screen::GrantCreate { step } => ScreenView::GrantCreate { step: *step },
            Screen::GrantDetail { id } => ScreenView::GrantDetail { id: id@ },
            Screen::RealmList => ScreenView::RealmList,
            Screen::RealmConnect { method } => ScreenView::RealmConnect { method: *method },
            Screen::RealmDetail { id } => ScreenView::RealmDetail { id: id@ },
            Screen::WorkloadList => ScreenView::WorkloadList,
            Screen::WorkloadDeploy { step } => ScreenView::WorkloadDeploy { step: *step },
            Screen::WorkloadDetail { id } => ScreenView::WorkloadDetail { id: id@ },
            Screen::SuperEntityList => ScreenView::SuperEntityList,
            Screen::SuperEntityCreate => ScreenView::SuperEntityCreate,
            Screen::SuperEntityDetail { id } => ScreenView::SuperEntityDetail { id: id@ },
            Screen::BackupList => ScreenView::BackupList,
            Screen::BackupVerify { id } => ScreenView::BackupVerify { id: id@ },
        }
    }
}

impl DeepView for Screen {
    type V = ScreenView;

    open spec fn deep_view(&self) -> ScreenView {
        self@
    }
}

impl Clone for Screen {
    fn clone(&self) -> (copy: Self)
        ensures
            copy@ == self@,
    {
        match self {
            Screen::Home => Screen::Home,
            Screen::GrantList => Screen::GrantList,
            Screen::GrantCreate { step } => Screen::GrantCreate { step: *step },
            Screen::GrantDetail { id } => Screen::GrantDetail { id: id.clone() },
            Screen::RealmList => Screen::RealmList,
            Screen::RealmConnect { method } => Screen::RealmConnect { method: *method },
            Screen::RealmDetail { id } => Screen::RealmDetail { id: id.clone() },
            Screen::WorkloadList => Screen::WorkloadList,
            Screen::WorkloadDeploy { step } => Screen::WorkloadDeploy { step: *step },
            Screen::WorkloadDetail { id } => Screen::WorkloadDetail { id: id.clone() },
            Screen::SuperEntityList => Screen::SuperEntityList,
            Screen::SuperEntityCreate => Screen::SuperEntityCreate,
            Screen::SuperEntityDetail { id } => Screen::SuperEntityDetail { id: id.clone() },
            Screen::BackupList => Screen::BackupList,
            Screen::BackupVerify { id } => Screen::BackupVerify { id: id.clone() },
        }
    }
}

impl Default for Screen {
    fn default() -> (screen: Self)
        ensures
            screen@ == ScreenView::Home,
    {
        Screen::Home
    }
}

/// Form state for grant creation
#[derive(Clone, Debug, Default)]
pub struct GrantForm {
    pub grantee_realm: String,
    pub requests_cpu: String,
    pub requests_memory: String,
    pub limits_cpu: String,
    pub limits_memory: String,
    pub requests_storage: String,
    pub egress_allowed: bool,
    pub allowed_destinations: Vec<String>,
}

/// The grant form, over plain text.
pub struct GrantFormView {
    pub grantee_realm: Seq<char>,
    pub requests_cpu: Seq<char>,
    pub requests_memory: Seq<char>,
    pub limits_cpu: Seq<char>,
    pub limits_memory: Seq<char>,
    pub requests_storage: Seq<char>,
    pub egress_allowed: bool,
    pub allowed_destinations: Seq<Seq<char>>,
}

impl View for GrantForm {
    type V = GrantFormView;

    open spec fn view(&self) -> GrantFormView {
        GrantFormView {
            grantee_realm: self.grantee_realm@,
            requests_cpu: self.requests_cpu@,
            requests_memory: self.requests_memory@,
            limits_cpu: self.limits_cpu@,
            limits_memory: self.limits_memory@,
            requests_storage: self.requests_storage@,
            egress_allowed: self.egress_allowed,
            allowed_destinations: self.allowed_destinations.deep_view(),
        }
    }
}

impl GrantForm {
    /// An empty form.
    pub fn new() -> (form: Self)
        ensures
            form@ == GrantFormView::empty(),
    {
        let form = GrantForm {
            grantee_realm: String::new(),
            requests_cpu: String::new(),
            requests_memory: String::new(),
            limits_cpu: String::new(),
            limits_memory: String::new(),
            requests_storage: String::new(),
            egress_allowed: false,
            allowed_destinations: Vec::new(),
        };
        assert(form.allowed_destinations.deep_view() =~= Seq::empty());
        form
    }
}

impl GrantFormView {
    pub open spec fn empty() -> GrantFormView {
        GrantFormView {
            grantee_realm: Seq::empty(),
            requests_cpu: Seq::empty(),
            requests_memory: Seq::empty(),
            limits_cpu: Seq::empty(),
            limits_memory: Seq::empty(),
            requests_storage: Seq::empty(),
            egress_allowed: false,
            allowed_destinations: Seq::empty(),
        }
    }
}

/// Main application state
pub struct App {
    /// Current screen
    pub screen: Screen,
    /// Navigation history for back functionality
    pub screen_history: Vec<Screen>,
    /// Whether we're connected to Kubernetes
    pub connected: bool,
    /// Current realm identifier
    pub current_realm: Option<String>,
    // UI state
    /// Selected index in lists
    pub list_index: usize,
    /// Text input buffer for forms
    pub input_buffer: String,
    /// Current form field index
    pub form_field: usize,
    /// Whether an async operation is loading
    pub loading: bool,
    /// Error message to display
    pub error: Option<String>,
    /// Whether to show help overlay
    pub show_help: bool,
    // Data from Kubernetes
    /// Grants (resources shared with others)
    pub grants: Vec<Grant>,
    /// Connected realms
    pub realms: Vec<Realm>,
    /// Running workloads
    pub workloads: Vec<Workload>,
    /// Super entities (shared ownership structures)
    pub super_entities: Vec<SuperEntity>,
    /// Backup status
    pub backups: Vec<Backup>,
    // Grant creation form state
    pub grant_form: GrantForm,
    /// Flag to quit the application
    pub should_quit: bool,
}

/// What navigation and input read and change of the application, over plain
/// text. Of the records it holds what identifies them in the lists.
pub struct AppView {
    pub screen: ScreenView,
    pub history: Seq<ScreenView>,
    pub list_index: usize,
    pub input_buffer: Seq<char>,
    pub form_field: usize,
    pub error: Option<Seq<char>>,
    pub show_help: bool,
    pub should_quit: bool,
    pub grant_form: GrantFormView,
    pub grant_names: Seq<Seq<char>>,
    pub realm_ids: Seq<Seq<char>>,
    pub workload_ids: Seq<Seq<char>>,
    pub super_entity_names: Seq<Seq<char>>,
    pub backup_ids: Seq<Seq<char>>,
}

impl View for App {
    type V = AppView;

    open spec fn view(&self) -> AppView {
        AppView {
            screen: self.screen@,
            history: self.screen_history.deep_view(),
            list_index: self.list_index,
            input_buffer: self.input_buffer@,
            form_field: self.form_field,
            error: optional_text(self.error),
            show_help: self.show_help,
            should_quit: self.should_quit,
            grant_form: self.grant_form@,
            grant_names: Seq::new(
                self.grants@.len(),
                |i: int| name_or_empty(self.grants@[i].metadata.name),
            ),
            realm_ids: Seq::new(self.realms@.len(), |i: int| self.realms@[i].id@),
            workload_ids: Seq::new(self.workloads@.len(), |i: int| self.workloads@[i].id@),
            super_entity_names: Seq::new(
                self.super_entities@.len(),
                |i: int| name_or_empty(self.super_entities@[i].metadata.name),
            ),
            backup_ids: Seq::new(self.backups@.len(), |i: int| self.backups@[i].id@),
        }
    }
}

impl AppView {
    /// Navigate to a new screen, pushing current to history
    pub open spec fn navigate_to(self, screen: ScreenView) -> AppView {
        AppView {
            screen,
            history: self.history.push(self.screen),
            list_index: 0,
            input_buffer: Seq::empty(),
            form_field: 0,
            error: None,
            ..self
        }
    }

    /// Go back to the previous screen; stay where there is none.
    pub open spec fn go_back(self) -> AppView {
        if self.history.len() > 0 {
            AppView {
                screen: self.history.last(),
                history: self.history.drop_last(),
                list_index: 0,
                input_buffer: Seq::empty(),
                form_field: 0,
                ..self
            }
        } else {
            self
        }
    }

    /// Move selection up in a list of `max` items, going round at the top.
    pub open spec fn select_prev(self, max: usize) -> AppView {
        if self.list_index > 0 {
            AppView { list_index: (self.list_index - 1) as usize, ..self }
        } else if max > 0 {
            AppView { list_index: (max - 1) as usize, ..self }
        } else {
            self
        }
    }

    /// Move selection down in a list of `max` items, going round at the
    /// bottom.
    pub open spec fn select_next(self, max: usize) -> AppView {
        if max > 0 && self.list_index < max - 1 {
            AppView { list_index: (self.list_index + 1) as usize, ..self }
        } else {
            AppView { list_index: 0, ..self }
        }
    }

    /// Move to next form field of `max`; stay on the last.
    pub open spec fn next_field(self, max: usize) -> AppView {
        if max > 0 && self.form_field < max - 1 {
            AppView { form_field: (self.form_field + 1) as usize, ..self }
        } else {
            self
        }
    }

    /// Move to previous form field; stay on the first.
    pub open spec fn prev_field(self) -> AppView {
        if self.form_field > 0 {
            AppView { form_field: (self.form_field - 1) as usize, ..self }
        } else {
            self
        }
    }

    /// The number of items in the current list. The main menu has 5.
    pub open spec fn current_list_len(self) -> nat {
        match self.screen {
            ScreenView::Home => 5,
            ScreenView::GrantList => self.grant_names.len(),
            ScreenView::RealmList => self.realm_ids.len(),
            ScreenView::WorkloadList => self.workload_ids.len(),
            ScreenView::SuperEntityList => self.super_entity_names.len(),
            ScreenView::BackupList => self.backup_ids.len(),
            _ => 0,
        }
    }
}

impl App {
    /// Whether `other` holds the same records and the same connection state.
    pub open spec fn same_data(&self, other: &App) -> bool {
        &&& self.connected == other.connected
        &&& self.current_realm == other.current_realm
        &&& self.loading == other.loading
        &&& self.grants == other.grants
        &&& self.realms == other.realms
        &&& self.workloads == other.workloads
        &&& self.super_entities == other.super_entities
        &&& self.backups == other.backups
    }

    /// The view of an application without records, on the home screen.
    pub open spec fn empty_view() -> AppView {
        AppView {
            screen: ScreenView::Home,
            history: Seq::empty(),
            list_index: 0,
            input_buffer: Seq::empty(),
            form_field: 0,
            error: None,
            show_help: false,
            should_quit: false,
            grant_form: GrantFormView::empty(),
            grant_names: Seq::empty(),
            realm_ids: Seq::empty(),
            workload_ids: Seq::empty(),
            super_entity_names: Seq::empty(),
            backup_ids: Seq::empty(),
        }
    }

    /// An application without records, on the home screen.
    pub fn empty() -> (app: Self)
        ensures
            app@ == App::empty_view(),
            !app.connected,
            app.current_realm is None,
            !app.loading,
    {
        let app = App {
            screen: Screen::Home,
            screen_history: Vec::new(),
            connected: false,
            current_realm: None,
            list_index: 0,
            input_buffer: String::new(),
            form_field: 0,
            loading: false,
            error: None,
            show_help: false,
            grants: Vec::new(),
            realms: Vec::new(),
            workloads: Vec::new(),
            super_entities: Vec::new(),
            backups: Vec::new(),
            grant_form: GrantForm::new(),
            should_quit: false,
        };
        assert(app@.history =~= Seq::empty());
        assert(app@.grant_names =~= Seq::empty());
        assert(app@.realm_ids =~= Seq::empty());
        assert(app@.workload_ids =~= Seq::empty());
        assert(app@.super_entity_names =~= Seq::empty());
        assert(app@.backup_ids =~= Seq::empty());
        app
    }

    /// Try to connect to the Kubernetes cluster. Offline, the attempt ends
    /// with an error on display.
    pub fn connect_k8s(&mut self)
        ensures
            !final(self).connected,
            final(self)@ == (AppView {
                error: Some("Kubernetes integration disabled in mock mode"@),
                ..old(self)@
            }),
            final(self).current_realm == old(self).current_realm,
            final(self).loading == old(self).loading,
            final(self).grants == old(self).grants,
            final(self).realms == old(self).realms,
            final(self).workloads == old(self).workloads,
            final(self).super_entities == old(self).super_entities,
            final(self).backups == old(self).backups,
    {
        self.connected = false;
        self.error = Some(String::from_str("Kubernetes integration disabled in mock mode"));
    }

    /// Navigate to a new screen, pushing current to history
    pub fn navigate_to(&mut self, screen: Screen)
        ensures
            final(self)@ == old(self)@.navigate_to(screen@),
            final(self).same_data(old(self)),
    {
        let ghost before = self.screen_history.deep_view();
        self.screen_history.push(self.screen.clone());
        assert(self.screen_history.deep_view() =~= before.push(self.screen@));
        self.screen = screen;
        self.list_index = 0;
        self.input_buffer = String::new();
        self.form_field = 0;
        self.error = None;
    }

    /// Go back to the previous screen
    pub fn go_back(&mut self)
        ensures
            final(self)@ == old(self)@.go_back(),
            final(self).same_data(old(self)),
    {
        let ghost before = self.screen_history.deep_view();
        match self.screen_history.pop() {
            Some(prev) => {
                assert(self.screen_history.deep_view() =~= before.drop_last());
                assert(prev@ == before.last());
                self.screen = prev;
                self.list_index = 0;
                self.input_buffer = String::new();
                self.form_field = 0;
            },
            None => {
                assert(before.len() == 0);
                assert(self.screen_history.deep_view() =~= before);
            },
        }
    }

    /// Move selection up in a list
    pub fn select_prev(&mut self, max: usize)
        ensures
            final(self)@ == old(self)@.select_prev(max),
            final(self).same_data(old(self)),
    {
        if self.list_index > 0 {
            self.list_index = self.list_index - 1;
        } else if max > 0 {
            self.list_index = max - 1;
        }
    }

    /// Move selection down in a list
    pub fn select_next(&mut self, max: usize)
        ensures
            final(self)@ == old(self)@.select_next(max),
            final(self).same_data(old(self)),
    {
        if max > 0 && self.list_index < max - 1 {
            self.list_index = self.list_index + 1;
        } else {
            self.list_index = 0;
        }
    }

    /// Move to next form field
    pub fn next_field(&mut self, max: usize)
        ensures
            final(self)@ == old(self)@.next_field(max),
            final(self).same_data(old(self)),
    {
        if max > 0 && self.form_field < max - 1 {
            self.form_field = self.form_field + 1;
        }
    }

    /// Move to previous form field
    pub fn prev_field(&mut self)
        ensures
            final(self)@ == old(self)@.prev_field(),
            final(self).same_data(old(self)),
    {
        if self.form_field > 0 {
            self.form_field = self.form_field - 1;
        }
    }

    /// Toggle help overlay
    pub fn toggle_help(&mut self)
        ensures
            final(self)@ == (AppView { show_help: !old(self)@.show_help, ..old(self)@ }),
            final(self).same_data(old(self)),
    {
        self.show_help = !self.show_help;
    }

    /// Clear any error message
    pub fn clear_error(&mut self)
        ensures
            final(self)@ == (AppView { error: None, ..old(self)@ }),
            final(self).same_data(old(self)),
    {
        self.error = None;
    }

    /// Get the number of items in the current list
    pub fn current_list_len(&self) -> (count: usize)
        ensures
            count == self@.current_list_len(),
    {
        match &self.screen {
            Screen::Home => 5,  // Main menu has 5 options
            Screen::GrantList => self.grants.len(),
            Screen::RealmList => self.realms.len(),
            Screen::WorkloadList => self.workloads.len(),
            Screen::SuperEntityList => self.super_entities.len(),
            Screen::BackupList => self.backups.len(),
            _ => 0,
        }
    }
}

} // verus!
