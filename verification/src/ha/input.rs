//! Input handling of the cross-realm manager: what a key press does on each
//! screen.

use vstd::prelude::*;
use crate::defs::meta::name_or_empty;
use crate::ha::app::{App, AppView, ConnectionMethod, DeployStep, GrantFormView, GrantStep, Screen, ScreenView};
use crate::handlers::{is_down, is_up};
use crate::keys::{KeyCode, KeyEvent};
use crate::text::{pop_char, push_char};

verus! {

/// Context for list navigation
#[derive(Clone, Copy, Debug, PartialEq, Eq, Structural)]
pub enum ListContext {
    Grants,
    Realms,
    Workloads,
    SuperEntities,
    Backups,
}

/// Check if current screen is a form that needs text input
pub open spec fn is_form(screen: ScreenView) -> bool {
    match screen {
        ScreenView::GrantCreate { .. } => true,
        ScreenView::RealmConnect { .. } => true,
        ScreenView::WorkloadDeploy { .. } => true,
        ScreenView::SuperEntityCreate => true,
        _ => false,
    }
}

/// The text without its last character; the empty text stays empty.
pub open spec fn without_last(text: Seq<char>) -> Seq<char> {
    if text.len() > 0 {
        text.drop_last()
    } else {
        text
    }
}

/// The number of fields of a step of the grant wizard.
pub open spec fn grant_step_fields(step: GrantStep) -> usize {
    match step {
        GrantStep::Grantee => 1,
        GrantStep::Resources => 5,
        GrantStep::Network => 2,
        GrantStep::Confirm => 0,
    }
}

/// The screen that follows a step of the grant wizard; none after the last.
pub open spec fn grant_step_after(step: GrantStep) -> Option<ScreenView> {
    match step {
        GrantStep::Grantee => Some(ScreenView::GrantCreate { step: GrantStep::Resources }),
        GrantStep::Resources => Some(ScreenView::GrantCreate { step: GrantStep::Network }),
        GrantStep::Network => Some(ScreenView::GrantCreate { step: GrantStep::Confirm }),
        GrantStep::Confirm => None,
    }
}

/// The screen that follows a step of the deployment wizard; none after the
/// last.
pub open spec fn deploy_step_after(step: DeployStep) -> Option<ScreenView> {
    match step {
        DeployStep::SelectRealm => Some(ScreenView::WorkloadDeploy { step: DeployStep::Configure }),
        DeployStep::Configure => Some(ScreenView::WorkloadDeploy { step: DeployStep::Review }),
        DeployStep::Review => None,
    }
}

/// The connection method at an index of the method list.
pub open spec fn method_at(index: usize) -> ConnectionMethod {
    if index == 0 {
        ConnectionMethod::Tailscale
    } else if index == 1 {
        ConnectionMethod::Headscale
    } else {
        ConnectionMethod::Token
    }
}

/// The screen that the main menu opens for an entry; none past the last.
pub open spec fn home_entry(index: usize) -> Option<ScreenView> {
    if index == 0 {
        Some(ScreenView::GrantList)
    } else if index == 1 {
        Some(ScreenView::RealmList)
    } else if index == 2 {
        Some(ScreenView::WorkloadList)
    } else if index == 3 {
        Some(ScreenView::SuperEntityList)
    } else if index == 4 {
        Some(ScreenView::BackupList)
    } else {
        None
    }
}

/// The screen that a digit opens from the main menu.
pub open spec fn home_shortcut(code: KeyCode) -> Option<ScreenView> {
    if code == KeyCode::Char('1') {
        Some(ScreenView::GrantList)
    } else if code == KeyCode::Char('2') {
        Some(ScreenView::RealmList)
    } else if code == KeyCode::Char('3') {
        Some(ScreenView::WorkloadList)
    } else if code == KeyCode::Char('4') {
        Some(ScreenView::SuperEntityList)
    } else if code == KeyCode::Char('5') {
        Some(ScreenView::BackupList)
    } else {
        None
    }
}

/// The screen on which a new item of a list is made; backups have none.
pub open spec fn create_screen(context: ListContext) -> Option<ScreenView> {
    match context {
        ListContext::Grants => Some(ScreenView::GrantCreate { step: GrantStep::Grantee }),
        ListContext::Realms => Some(ScreenView::RealmConnect { method: None }),
        ListContext::Workloads => Some(ScreenView::WorkloadDeploy { step: DeployStep::SelectRealm }),
        ListContext::SuperEntities => Some(ScreenView::SuperEntityCreate),
        ListContext::Backups => None,
    }
}

impl AppView {
    /// The screen of the selected item of a list; none where the selection
    /// is past its end.
    pub open spec fn detail_screen(self, context: ListContext) -> Option<ScreenView> {
        let index = self.list_index as int;
        match context {
            ListContext::Grants => if index < self.grant_names.len() {
                Some(ScreenView::GrantDetail { id: self.grant_names[index] })
            } else {
                None
            },
            ListContext::Realms => if index < self.realm_ids.len() {
                Some(ScreenView::RealmDetail { id: self.realm_ids[index] })
            } else {
                None
            },
            ListContext::Workloads => if index < self.workload_ids.len() {
                Some(ScreenView::WorkloadDetail { id: self.workload_ids[index] })
            } else {
                None
            },
            ListContext::SuperEntities => if index < self.super_entity_names.len() {
                Some(ScreenView::SuperEntityDetail { id: self.super_entity_names[index] })
            } else {
                None
            },
            ListContext::Backups => if index < self.backup_ids.len() {
                Some(ScreenView::BackupVerify { id: self.backup_ids[index] })
            } else {
                None
            },
        }
    }

    /// Opens `screen` if there is one.
    pub open spec fn navigate_if(self, screen: Option<ScreenView>) -> AppView {
        match screen {
            Some(screen) => self.navigate_to(screen),
            None => self,
        }
    }

    /// A key on the home screen.
    pub open spec fn home_key(self, key: KeyEvent) -> AppView {
        let max = self.current_list_len() as usize;
        if is_up(key.code) {
            self.select_prev(max)
        } else if is_down(key.code) {
            self.select_next(max)
        } else if home_shortcut(key.code) is Some {
            self.navigate_if(home_shortcut(key.code))
        } else if key.code == KeyCode::Enter {
            self.navigate_if(home_entry(self.list_index))
        } else {
            self
        }
    }

    /// A key on a list screen.
    pub open spec fn list_key(self, key: KeyEvent, context: ListContext) -> AppView {
        let max = self.current_list_len() as usize;
        if is_up(key.code) {
            self.select_prev(max)
        } else if is_down(key.code) {
            self.select_next(max)
        } else if key.code == KeyCode::Esc {
            self.go_back()
        } else if key.code == KeyCode::Char('c') || key.code == KeyCode::Char('n') {
            self.navigate_if(create_screen(context))
        } else if key.code == KeyCode::Enter {
            if max > 0 {
                self.navigate_if(self.detail_screen(context))
            } else {
                self
            }
        } else {
            self
        }
    }

    /// A key on a detail screen.
    pub open spec fn detail_key(self, key: KeyEvent) -> AppView {
        if key.code == KeyCode::Esc || key.code == KeyCode::Char('b') {
            self.go_back()
        } else {
            self
        }
    }

    /// The grant form takes over what has been typed.
    pub open spec fn update_grant_form(self, step: GrantStep) -> AppView {
        let form = self.grant_form;
        let typed = self.input_buffer;
        match step {
            GrantStep::Grantee => AppView {
                grant_form: GrantFormView { grantee_realm: typed, ..form },
                ..self
            },
            GrantStep::Resources => if self.form_field == 0 {
                AppView { grant_form: GrantFormView { requests_cpu: typed, ..form }, ..self }
            } else if self.form_field == 1 {
                AppView { grant_form: GrantFormView { requests_memory: typed, ..form }, ..self }
            } else if self.form_field == 2 {
                AppView { grant_form: GrantFormView { limits_cpu: typed, ..form }, ..self }
            } else if self.form_field == 3 {
                AppView { grant_form: GrantFormView { limits_memory: typed, ..form }, ..self }
            } else if self.form_field == 4 {
                AppView { grant_form: GrantFormView { requests_storage: typed, ..form }, ..self }
            } else {
                self
            },
            GrantStep::Network => if self.form_field == 0 {
                AppView {
                    grant_form: GrantFormView { egress_allowed: !form.egress_allowed, ..form },
                    ..self
                }
            } else {
                self
            },
            GrantStep::Confirm => self,
        }
    }

    /// Moves on to the next step of a wizard, or back where it was the last.
    pub open spec fn advance(self, next: Option<ScreenView>) -> AppView {
        match next {
            Some(screen) => AppView { screen, form_field: 0, ..self },
            None => self.go_back(),
        }
    }

    /// A key during grant creation.
    pub open spec fn grant_create_key(self, key: KeyEvent, step: GrantStep) -> AppView {
        match key.code {
            KeyCode::Esc => self.go_back(),
            KeyCode::Tab => self.next_field(grant_step_fields(step)),
            KeyCode::BackTab => self.prev_field(),
            KeyCode::Enter => self.advance(grant_step_after(step)),
            KeyCode::Char(c) => (AppView {
                input_buffer: self.input_buffer.push(c),
                ..self
            }).update_grant_form(step),
            KeyCode::Backspace => (AppView {
                input_buffer: without_last(self.input_buffer),
                ..self
            }).update_grant_form(step),
            _ => self,
        }
    }

    /// A key during realm connection.
    pub open spec fn realm_connect_key(
        self,
        key: KeyEvent,
        method: Option<ConnectionMethod>,
    ) -> AppView {
        if key.code == KeyCode::Esc {
            if method is Some {
                AppView { screen: ScreenView::RealmConnect { method: None }, ..self }
            } else {
                self.go_back()
            }
        } else if key.code == KeyCode::Enter {
            if method is None {
                AppView {
                    screen: ScreenView::RealmConnect {
                        method: Some(method_at(self.list_index)),
                    },
                    list_index: 0,
                    ..self
                }
            } else {
                self.go_back()
            }
        } else if method is None {
            if is_up(key.code) {
                self.select_prev(3)
            } else if is_down(key.code) {
                self.select_next(3)
            } else {
                self
            }
        } else {
            match key.code {
                KeyCode::Char(c) => AppView { input_buffer: self.input_buffer.push(c), ..self },
                KeyCode::Backspace => AppView {
                    input_buffer: without_last(self.input_buffer),
                    ..self
                },
                _ => self,
            }
        }
    }

    /// The length of the realm list, taken as 1 where it is empty.
    pub open spec fn realm_choices(self) -> usize {
        if self.realm_ids.len() == 0 {
            1
        } else {
            self.realm_ids.len() as usize
        }
    }

    /// A key during workload deployment.
    pub open spec fn workload_deploy_key(self, key: KeyEvent, step: DeployStep) -> AppView {
        if key.code == KeyCode::Esc {
            self.go_back()
        } else if key.code == KeyCode::Tab {
            if key.shift {
                self.prev_field()
            } else {
                self.next_field(5)
            }
        } else if key.code == KeyCode::Enter {
            self.advance(deploy_step_after(step))
        } else if is_up(key.code) {
            self.select_prev(self.realm_choices())
        } else if is_down(key.code) {
            self.select_next(self.realm_choices())
        } else {
            match key.code {
                KeyCode::Char(c) => AppView { input_buffer: self.input_buffer.push(c), ..self },
                KeyCode::Backspace => AppView {
                    input_buffer: without_last(self.input_buffer),
                    ..self
                },
                _ => self,
            }
        }
    }

    /// A key on a plain form of `max_fields` fields.
    pub open spec fn form_key(self, key: KeyEvent, max_fields: usize) -> AppView {
        match key.code {
            KeyCode::Esc => self.go_back(),
            KeyCode::Tab => if key.shift {
                self.prev_field()
            } else {
                self.next_field(max_fields)
            },
            KeyCode::Enter => self.go_back(),
            KeyCode::Char(c) => AppView { input_buffer: self.input_buffer.push(c), ..self },
            KeyCode::Backspace => AppView { input_buffer: without_last(self.input_buffer), ..self },
            _ => self,
        }
    }

    /// A key on the screen on display.
    pub open spec fn screen_key(self, key: KeyEvent) -> AppView {
        match self.screen {
            ScreenView::Home => self.home_key(key),
            ScreenView::GrantList => self.list_key(key, ListContext::Grants),
            ScreenView::GrantCreate { step } => self.grant_create_key(key, step),
            ScreenView::GrantDetail { .. } => self.detail_key(key),
            ScreenView::RealmList => self.list_key(key, ListContext::Realms),
            ScreenView::RealmConnect { method } => self.realm_connect_key(key, method),
            ScreenView::RealmDetail { .. } => self.detail_key(key),
            ScreenView::WorkloadList => self.list_key(key, ListContext::Workloads),
            ScreenView::WorkloadDeploy { step } => self.workload_deploy_key(key, step),
            ScreenView::WorkloadDetail { .. } => self.detail_key(key),
            ScreenView::SuperEntityList => self.list_key(key, ListContext::SuperEntities),
            ScreenView::SuperEntityCreate => self.form_key(key, 3),
            ScreenView::SuperEntityDetail { .. } => self.detail_key(key),
            ScreenView::BackupList => self.list_key(key, ListContext::Backups),
            ScreenView::BackupVerify { .. } => self.detail_key(key),
        }
    }

    /// A key press. While help is shown, any key closes it. While an error
    /// is shown, Enter dismisses it and nothing else counts. Otherwise `q`
    /// quits, except on forms, `?` opens help, and every other key goes to
    /// the screen on display.
    pub open spec fn handle_key(self, key: KeyEvent) -> AppView {
        if self.show_help {
            AppView { show_help: false, ..self }
        } else if self.error is Some {
            if key.code == KeyCode::Enter {
                AppView { error: None, ..self }
            } else {
                self
            }
        } else if key.code == KeyCode::Char('q') && !is_form(self.screen) {
            AppView { should_quit: true, ..self }
        } else if key.code == KeyCode::Char('?') {
            AppView { show_help: !self.show_help, ..self }
        } else {
            self.screen_key(key)
        }
    }
}

/// Check if current screen is a form that needs text input
pub fn is_form_screen(screen: &Screen) -> (form: bool)
    ensures
        form == is_form(screen@),
{
    match screen {
        Screen::GrantCreate { .. } => true,
        Screen::RealmConnect { .. } => true,
        Screen::WorkloadDeploy { .. } => true,
        Screen::SuperEntityCreate => true,
        _ => false,
    }
}

/// Handle input on the home screen
pub fn handle_home_input(app: &mut App, key: KeyEvent)
    ensures
        final(app)@ == old(app)@.home_key(key),
        final(app).same_data(old(app)),
{
    let max = app.current_list_len();

    match key.code {
        KeyCode::Up | KeyCode::Char('k') => app.select_prev(max),
        KeyCode::Down | KeyCode::Char('j') => app.select_next(max),
        KeyCode::Char('1') => app.navigate_to(Screen::GrantList),
        KeyCode::Char('2') => app.navigate_to(Screen::RealmList),
        KeyCode::Char('3') => app.navigate_to(Screen::WorkloadList),
        KeyCode::Char('4') => app.navigate_to(Screen::SuperEntityList),
        KeyCode::Char('5') => app.navigate_to(Screen::BackupList),
        KeyCode::Enter => match app.list_index {
            0 => app.navigate_to(Screen::GrantList),
            1 => app.navigate_to(Screen::RealmList),
            2 => app.navigate_to(Screen::WorkloadList),
            3 => app.navigate_to(Screen::SuperEntityList),
            4 => app.navigate_to(Screen::BackupList),
            _ => {},
        },
        _ => {},
    }
}

/// Handle input on list screens
pub fn handle_list_input(app: &mut App, key: KeyEvent, context: ListContext)
    ensures
        final(app)@ == old(app)@.list_key(key, context),
        final(app).same_data(old(app)),
{
    let max = app.current_list_len();

    match key.code {
        KeyCode::Up | KeyCode::Char('k') => app.select_prev(max),
        KeyCode::Down | KeyCode::Char('j') => app.select_next(max),
        KeyCode::Esc => app.go_back(),
        KeyCode::Char('c') | KeyCode::Char('n') => {
            // Create new item
            match context {
                ListContext::Grants => app.navigate_to(
                    Screen::GrantCreate { step: GrantStep::Grantee },
                ),
                ListContext::Realms => app.navigate_to(Screen::RealmConnect { method: None }),
                ListContext::Workloads => app.navigate_to(
                    Screen::WorkloadDeploy { step: DeployStep::SelectRealm },
                ),
                ListContext::SuperEntities => app.navigate_to(Screen::SuperEntityCreate),
                ListContext::Backups => {},  // No create for backups
            }
        },
        KeyCode::Enter => {
            if max > 0 {
                match context {
                    ListContext::Grants => {
                        if app.list_index < app.grants.len() {
                            let id = app.grants[app.list_index].name();
                            app.navigate_to(Screen::GrantDetail { id });
                        }
                    },
                    ListContext::Realms => {
                        if app.list_index < app.realms.len() {
                            let id = app.realms[app.list_index].id.clone();
                            app.navigate_to(Screen::RealmDetail { id });
                        }
                    },
                    ListContext::Workloads => {
                        if app.list_index < app.workloads.len() {
                            let id = app.workloads[app.list_index].id.clone();
                            app.navigate_to(Screen::WorkloadDetail { id });
                        }
                    },
                    ListContext::SuperEntities => {
                        if app.list_index < app.super_entities.len() {
                            let id = app.super_entities[app.list_index].name();
                            app.navigate_to(Screen::SuperEntityDetail { id });
                        }
                    },
                    ListContext::Backups => {
                        if app.list_index < app.backups.len() {
                            let id = app.backups[app.list_index].id.clone();
                            app.navigate_to(Screen::BackupVerify { id });
                        }
                    },
                }
            }
        },
        _ => {},
    }
}

/// Handle input on detail screens
pub fn handle_detail_input(app: &mut App, key: KeyEvent)
    ensures
        final(app)@ == old(app)@.detail_key(key),
        final(app).same_data(old(app)),
{
    match key.code {
        KeyCode::Esc | KeyCode::Char('b') => app.go_back(),
        _ => {},
    }
}

/// Handle input during grant creation
pub fn handle_grant_create_input(app: &mut App, key: KeyEvent, step: GrantStep)
    ensures
        final(app)@ == old(app)@.grant_create_key(key, step),
        final(app).same_data(old(app)),
{
    match key.code {
        KeyCode::Esc => app.go_back(),
        KeyCode::Tab => {
            // Advance form field or step
            let max_fields: usize = match step {
                GrantStep::Grantee => 1,
                GrantStep::Resources => 5,
                GrantStep::Network => 2,
                GrantStep::Confirm => 0,
            };
            if max_fields > 0 && app.form_field < max_fields - 1 {
                app.next_field(max_fields);
            }
        },
        KeyCode::BackTab => app.prev_field(),
        KeyCode::Enter => {
            // Move to next step or submit
            let next = match step {
                GrantStep::Grantee => Some(Screen::GrantCreate { step: GrantStep::Resources }),
                GrantStep::Resources => Some(Screen::GrantCreate { step: GrantStep::Network }),
                GrantStep::Network => Some(Screen::GrantCreate { step: GrantStep::Confirm }),
                GrantStep::Confirm => {
                    app.go_back();
                    None
                },
            };
            if let Some(screen) = next {
                app.screen = screen;
                app.form_field = 0;
            }
        },
        KeyCode::Char(c) => {
            push_char(&mut app.input_buffer, c);
            // Update form field based on current step and field
            update_grant_form(app, &step);
        },
        KeyCode::Backspace => {
            pop_char(&mut app.input_buffer);
            update_grant_form(app, &step);
        },
        _ => {},
    }
}

/// Update grant form state from input buffer
pub fn update_grant_form(app: &mut App, step: &GrantStep)
    ensures
        final(app)@ == old(app)@.update_grant_form(*step),
        final(app).same_data(old(app)),
{
    match step {
        GrantStep::Grantee => {
            app.grant_form.grantee_realm = app.input_buffer.clone();
        },
        GrantStep::Resources => match app.form_field {
            0 => app.grant_form.requests_cpu = app.input_buffer.clone(),
            1 => app.grant_form.requests_memory = app.input_buffer.clone(),
            2 => app.grant_form.limits_cpu = app.input_buffer.clone(),
            3 => app.grant_form.limits_memory = app.input_buffer.clone(),
            4 => app.grant_form.requests_storage = app.input_buffer.clone(),
            _ => {},
        },
        GrantStep::Network => {
            if app.form_field == 0 {
                // Toggle egress
                app.grant_form.egress_allowed = !app.grant_form.egress_allowed;
            }
        },
        GrantStep::Confirm => {},
    }
}

/// Handle input during realm connection
pub fn handle_realm_connect_input(app: &mut App, key: KeyEvent, method: Option<ConnectionMethod>)
    ensures
        final(app)@ == old(app)@.realm_connect_key(key, method),
        final(app).same_data(old(app)),
{
    match key.code {
        KeyCode::Esc => {
            if method.is_some() {
                app.screen = Screen::RealmConnect { method: None };
            } else {
                app.go_back();
            }
        },
        KeyCode::Enter => {
            if method.is_none() {
                // Select connection method
                let selected_method = match app.list_index {
                    0 => ConnectionMethod::Tailscale,
                    1 => ConnectionMethod::Headscale,
                    2 => ConnectionMethod::Token,
                    _ => ConnectionMethod::Token,
                };
                app.screen = Screen::RealmConnect { method: Some(selected_method) };
                app.list_index = 0;
            } else {
                // Submit connection
                app.go_back();
            }
        },
        _ => {
            if method.is_none() {
                match key.code {
                    KeyCode::Up | KeyCode::Char('k') => app.select_prev(3),
                    KeyCode::Down | KeyCode::Char('j') => app.select_next(3),
                    _ => {},
                }
            } else {
                match key.code {
                    KeyCode::Char(c) => {
                        push_char(&mut app.input_buffer, c);
                    },
                    KeyCode::Backspace => {
                        pop_char(&mut app.input_buffer);
                    },
                    _ => {},
                }
            }
        },
    }
}

/// Handle input during workload deployment
pub fn handle_workload_deploy_input(app: &mut App, key: KeyEvent, step: DeployStep)
    ensures
        final(app)@ == old(app)@.workload_deploy_key(key, step),
        final(app).same_data(old(app)),
{
    let choices: usize = if app.realms.len() == 0 {
        1
    } else {
        app.realms.len()
    };
    match key.code {
        KeyCode::Esc => app.go_back(),
        KeyCode::Tab if key.shift => app.prev_field(),
        KeyCode::Tab => app.next_field(5),
        KeyCode::Enter => {
            let next = match step {
                DeployStep::SelectRealm => Some(
                    Screen::WorkloadDeploy { step: DeployStep::Configure },
                ),
                DeployStep::Configure => Some(Screen::WorkloadDeploy { step: DeployStep::Review }),
                DeployStep::Review => {
                    app.go_back();
                    None
                },
            };
            if let Some(screen) = next {
                app.screen = screen;
                app.form_field = 0;
            }
        },
        KeyCode::Up | KeyCode::Char('k') => app.select_prev(choices),
        KeyCode::Down | KeyCode::Char('j') => app.select_next(choices),
        KeyCode::Char(c) => push_char(&mut app.input_buffer, c),
        KeyCode::Backspace => {
            pop_char(&mut app.input_buffer);
        },
        _ => {},
    }
}

/// Generic form input handler
pub fn handle_form_input(app: &mut App, key: KeyEvent, max_fields: usize)
    ensures
        final(app)@ == old(app)@.form_key(key, max_fields),
        final(app).same_data(old(app)),
{
    match key.code {
        KeyCode::Esc => app.go_back(),
        KeyCode::Tab if key.shift => app.prev_field(),
        KeyCode::Tab => app.next_field(max_fields),
        KeyCode::Enter => {
            app.go_back();
        },
        KeyCode::Char(c) => push_char(&mut app.input_buffer, c),
        KeyCode::Backspace => {
            pop_char(&mut app.input_buffer);
        },
        _ => {},
    }
}

/// What a key press is routed by: the kind of the screen on display.
enum Route {
    Home,
    List(ListContext),
    Detail,
    GrantCreate(GrantStep),
    RealmConnect(Option<ConnectionMethod>),
    WorkloadDeploy(DeployStep),
    Form(usize),
}

fn route_of(screen: &Screen) -> (route: Route)
    ensures
        route == match screen@ {
            ScreenView::Home => Route::Home,
            ScreenView::GrantList => Route::List(ListContext::Grants),
            ScreenView::GrantCreate { step } => Route::GrantCreate(step),
            ScreenView::GrantDetail { .. } => Route::Detail,
            ScreenView::RealmList => Route::List(ListContext::Realms),
            ScreenView::RealmConnect { method } => Route::RealmConnect(method),
            ScreenView::RealmDetail { .. } => Route::Detail,
            ScreenView::WorkloadList => Route::List(ListContext::Workloads),
            ScreenView::WorkloadDeploy { step } => Route::WorkloadDeploy(step),
            ScreenView::WorkloadDetail { .. } => Route::Detail,
            ScreenView::SuperEntityList => Route::List(ListContext::SuperEntities),
            ScreenView::SuperEntityCreate => Route::Form(3),
            ScreenView::SuperEntityDetail { .. } => Route::Detail,
            ScreenView::BackupList => Route::List(ListContext::Backups),
            ScreenView::BackupVerify { .. } => Route::Detail,
        },
{
    match screen {
        Screen::Home => Route::Home,
        Screen::GrantList => Route::List(ListContext::Grants),
        Screen::GrantCreate { step } => Route::GrantCreate(*step),
        Screen::GrantDetail { .. } => Route::Detail,
        Screen::RealmList => Route::List(ListContext::Realms),
        Screen::RealmConnect { method } => Route::RealmConnect(*method),
        Screen::RealmDetail { .. } => Route::Detail,
        Screen::WorkloadList => Route::List(ListContext::Workloads),
        Screen::WorkloadDeploy { step } => Route::WorkloadDeploy(*step),
        Screen::WorkloadDetail { .. } => Route::Detail,
        Screen::SuperEntityList => Route::List(ListContext::SuperEntities),
        Screen::SuperEntityCreate => Route::Form(3),  // name, purpose, members
        Screen::SuperEntityDetail { .. } => Route::Detail,
        Screen::BackupList => Route::List(ListContext::Backups),
        Screen::BackupVerify { .. } => Route::Detail,
    }
}

/// Handle a keyboard event
pub fn handle_key(app: &mut App, key: KeyEvent)
    ensures
        final(app)@ == old(app)@.handle_key(key),
        final(app).same_data(old(app)),
{
    // If help is shown, any key closes it
    if app.show_help {
        app.show_help = false;
        return ;
    }
    // If error is shown, Enter dismisses it

    if app.error.is_some() {
        if key.code == KeyCode::Enter {
            app.clear_error();
        }
        return ;
    }
    // Global keys that work on any screen

    match key.code {
        KeyCode::Char('q') if !is_form_screen(&app.screen) => {
            app.should_quit = true;
            return ;
        },
        KeyCode::Char('?') => {
            app.toggle_help();
            return ;
        },
        _ => {},
    }

    // Screen-specific input handling
    match route_of(&app.screen) {
        Route::Home => handle_home_input(app, key),
        Route::List(context) => handle_list_input(app, key, context),
        Route::Detail => handle_detail_input(app, key),
        Route::GrantCreate(step) => handle_grant_create_input(app, key, step),
        Route::RealmConnect(method) => handle_realm_connect_input(app, key, method),
        Route::WorkloadDeploy(step) => handle_workload_deploy_input(app, key, step),
        Route::Form(max_fields) => handle_form_input(app, key, max_fields),
    }
}

} // verus!
