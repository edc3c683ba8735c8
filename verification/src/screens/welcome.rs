//! The welcome screen, displayed on first run or when no repos are
//! configured: choose to import or to create a repository, type its URL or
//! name, and see how it went.

use vstd::prelude::*;
use crate::keys::KeyEvent;
use crate::text::{chars_of, optional_text, string_of};
use crate::ui::input::{TextInput, TextInputView};

verus! {

/// State machine for the welcome screen flow.
#[derive(Clone, Copy, Debug, Default, PartialEq, Eq, Structural)]
pub enum WelcomeState {
    #[default]
    SelectAction,
    InputGitUrl,
    InputRepoName,
    Importing,
    Creating,
    Success,
    Error,
}

#[derive(Clone, Copy, Debug, Default, PartialEq, Eq, Structural)]
pub enum WelcomeOption {
    #[default]
    ImportExisting,
    CreateNew,
}

/// Result from handling input on the welcome screen.
#[derive(Debug, PartialEq, Eq)]
pub enum WelcomeAction {
    /// Nothing for the application to do.
    Nothing,
    ImportRepo { name: String, git_url: String },
    CreateRepo { name: String },
    /// User acknowledged success - app should transition to repos view
    Complete,
}

/// A welcome action, over plain text.
pub enum WelcomeActionView {
    Nothing,
    ImportRepo { name: Seq<char>, git_url: Seq<char> },
    CreateRepo { name: Seq<char> },
    Complete,
}

impl View for WelcomeAction {
    type V = WelcomeActionView;

    open spec fn view(&self) -> WelcomeActionView {
        match self {
            WelcomeAction::Nothing => WelcomeActionView::Nothing,
            WelcomeAction::ImportRepo { name, git_url } => WelcomeActionView::ImportRepo {
                name: name@,
                git_url: git_url@,
            },
            WelcomeAction::CreateRepo { name } => WelcomeActionView::CreateRepo { name: name@ },
            WelcomeAction::Complete => WelcomeActionView::Complete,
        }
    }
}

/// The ending that a git URL may carry behind the repository name.
pub open spec fn git_suffix() -> Seq<char> {
    seq!['.', 'g', 'i', 't']
}

pub open spec fn ends_with_git_suffix(url: Seq<char>) -> bool {
    url.len() >= 4 && url.skip(url.len() - 4) == git_suffix()
}

/// `url` without any `.git` at its end, however often it is repeated.
pub open spec fn without_git_suffix(url: Seq<char>) -> Seq<char>
    decreases url.len(),
{
    if ends_with_git_suffix(url) {
        without_git_suffix(url.take(url.len() - 4))
    } else {
        url
    }
}

/// The index behind the last `/` of `text`; 0 where it has none.
pub open spec fn segment_start(text: Seq<char>) -> int
    decreases text.len(),
{
    if text.len() == 0 {
        0
    } else if text.last() == '/' {
        text.len() as int
    } else {
        segment_start(text.drop_last())
    }
}

/// The repository name that a git URL ends in: what stands behind its last
/// `/`, without `.git`. `https://github.com/user/repo.git` and
/// `git@github.com:user/repo.git` both give `repo`.
pub open spec fn repo_name_of(url: Seq<char>) -> Seq<char> {
    let trimmed = without_git_suffix(url);
    trimmed.skip(segment_start(trimmed))
}

proof fn lemma_segment_start(text: Seq<char>, start: int)
    requires
        0 <= start <= text.len(),
        forall|j: int| start <= j < text.len() ==> text[j] != '/',
        start == 0 || text[start - 1] == '/',
    ensures
        segment_start(text) == start,
    decreases text.len(),
{
    if text.len() > start {
        lemma_segment_start(text.drop_last(), start);
    }
}

/// Extract repository name from a git URL.
pub fn extract_repo_name(url: &str) -> (name: Option<String>)
    ensures
        name matches Some(text) && text@ == repo_name_of(url@),
{
    let mut chars = chars_of(url);
    while chars.len() >= 4 && chars[chars.len() - 4] == '.' && chars[chars.len() - 3] == 'g'
        && chars[chars.len() - 2] == 'i' && chars[chars.len() - 1] == 't'
        invariant
            without_git_suffix(chars@) == without_git_suffix(url@),
        decreases chars.len(),
    {
        assert(chars@.skip(chars@.len() - 4) =~= git_suffix());
        let shorter: usize = chars.len() - 4;
        chars.truncate(shorter);
    }
    assert(!ends_with_git_suffix(chars@)) by {
        if chars@.len() >= 4 {
            let tail = chars@.skip(chars@.len() - 4);
            assert(tail[0] == chars@[chars@.len() - 4]);
            assert(tail[1] == chars@[chars@.len() - 3]);
            assert(tail[2] == chars@[chars@.len() - 2]);
            assert(tail[3] == chars@[chars@.len() - 1]);
        }
    }
    let mut start: usize = chars.len();
    while start > 0 && chars[start - 1] != '/'
        invariant
            start <= chars.len(),
            forall|j: int| start <= j < chars.len() ==> chars[j] != '/',
        decreases start,
    {
        start = start - 1;
    }
    proof {
        lemma_segment_start(chars@, start as int);
    }
    let mut segment: Vec<char> = Vec::new();
    let mut next: usize = start;
    while next < chars.len()
        invariant
            start <= next <= chars.len(),
            segment@ == chars@.subrange(start as int, next as int),
        decreases chars.len() - next,
    {
        segment.push(chars[next]);
        assert(segment@ =~= chars@.subrange(start as int, next + 1));
        next = next + 1;
    }
    assert(segment@ =~= chars@.skip(start as int));
    Some(string_of(&segment))
}

/// The state of the welcome screen, over plain text.
pub struct WelcomeView {
    pub state: WelcomeState,
    pub selected_option: WelcomeOption,
    pub git_url_input: TextInputView,
    pub repo_name_input: TextInputView,
    pub error_message: Option<Seq<char>>,
    pub success_message: Option<Seq<char>>,
}

/// The other of the two options.
pub open spec fn other_option(option: WelcomeOption) -> WelcomeOption {
    match option {
        WelcomeOption::ImportExisting => WelcomeOption::CreateNew,
        WelcomeOption::CreateNew => WelcomeOption::ImportExisting,
    }
}

impl WelcomeView {
    /// The screen as it opens.
    pub open spec fn initial() -> WelcomeView {
        WelcomeView {
            state: WelcomeState::SelectAction,
            selected_option: WelcomeOption::ImportExisting,
            git_url_input: TextInputView {
                value: Seq::empty(),
                cursor: 0,
                placeholder: "https://github.com/user/repo.git"@,
                focused: false,
            },
            repo_name_input: TextInputView {
                value: Seq::empty(),
                cursor: 0,
                placeholder: "my-infrastructure"@,
                focused: false,
            },
            error_message: None,
            success_message: None,
        }
    }

    /// Up and down both move to the other option, while one is being chosen.
    pub open spec fn toggle(self) -> WelcomeView {
        if self.state == WelcomeState::SelectAction {
            WelcomeView { selected_option: other_option(self.selected_option), ..self }
        } else {
            self
        }
    }

    /// The screen after Enter.
    pub open spec fn confirm(self) -> WelcomeView {
        match self.state {
            WelcomeState::SelectAction => match self.selected_option {
                WelcomeOption::ImportExisting => WelcomeView {
                    state: WelcomeState::InputGitUrl,
                    git_url_input: TextInputView { focused: true, ..self.git_url_input },
                    ..self
                },
                WelcomeOption::CreateNew => WelcomeView {
                    state: WelcomeState::InputRepoName,
                    repo_name_input: TextInputView { focused: true, ..self.repo_name_input },
                    ..self
                },
            },
            WelcomeState::InputGitUrl => if self.git_url_input.value.len() == 0 {
                WelcomeView {
                    state: WelcomeState::Error,
                    error_message: Some("Git URL cannot be empty"@),
                    ..self
                }
            } else {
                WelcomeView { state: WelcomeState::Importing, ..self }
            },
            WelcomeState::InputRepoName => if self.repo_name_input.value.len() == 0 {
                WelcomeView {
                    state: WelcomeState::Error,
                    error_message: Some("Repository name cannot be empty"@),
                    ..self
                }
            } else {
                WelcomeView { state: WelcomeState::Creating, ..self }
            },
            WelcomeState::Error => WelcomeView {
                state: WelcomeState::SelectAction,
                error_message: None,
                ..self
            },
            _ => self,
        }
    }

    /// What Enter asks the application to do.
    pub open spec fn confirm_action(self) -> WelcomeActionView {
        match self.state {
            WelcomeState::InputGitUrl => if self.git_url_input.value.len() == 0 {
                WelcomeActionView::Nothing
            } else {
                WelcomeActionView::ImportRepo {
                    name: repo_name_of(self.git_url_input.value),
                    git_url: self.git_url_input.value,
                }
            },
            WelcomeState::InputRepoName => if self.repo_name_input.value.len() == 0 {
                WelcomeActionView::Nothing
            } else {
                WelcomeActionView::CreateRepo { name: self.repo_name_input.value }
            },
            WelcomeState::Success => WelcomeActionView::Complete,
            _ => WelcomeActionView::Nothing,
        }
    }

    /// The screen after Escape.
    pub open spec fn cancel(self) -> WelcomeView {
        match self.state {
            WelcomeState::InputGitUrl | WelcomeState::InputRepoName => WelcomeView {
                state: WelcomeState::SelectAction,
                git_url_input: TextInputView { focused: false, ..self.git_url_input },
                repo_name_input: TextInputView { focused: false, ..self.repo_name_input },
                ..self
            },
            WelcomeState::Error => WelcomeView {
                state: WelcomeState::SelectAction,
                error_message: None,
                ..self
            },
            _ => self,
        }
    }

    /// The screen after a key that goes to the input being edited.
    pub open spec fn type_key(self, key: KeyEvent) -> WelcomeView {
        match self.state {
            WelcomeState::InputGitUrl => WelcomeView {
                git_url_input: self.git_url_input.press(key.code),
                ..self
            },
            WelcomeState::InputRepoName => WelcomeView {
                repo_name_input: self.repo_name_input.press(key.code),
                ..self
            },
            _ => self,
        }
    }

    /// Whether such a key is consumed.
    pub open spec fn typing_consumes(self, key: KeyEvent) -> bool {
        match self.state {
            WelcomeState::InputGitUrl => TextInputView::consumes(key.code),
            WelcomeState::InputRepoName => TextInputView::consumes(key.code),
            _ => false,
        }
    }
}

/// The Welcome screen, displayed on first run or when no repos are configured.
pub struct WelcomeScreen {
    state: WelcomeState,
    selected_option: WelcomeOption,
    git_url_input: TextInput,
    repo_name_input: TextInput,
    error_message: Option<String>,
    success_message: Option<String>,
}

impl View for WelcomeScreen {
    type V = WelcomeView;

    closed spec fn view(&self) -> WelcomeView {
        WelcomeView {
            state: self.state,
            selected_option: self.selected_option,
            git_url_input: self.git_url_input@,
            repo_name_input: self.repo_name_input@,
            error_message: optional_text(self.error_message),
            success_message: optional_text(self.success_message),
        }
    }
}

impl WelcomeScreen {
    pub fn new() -> (screen: Self)
        ensures
            screen@ == WelcomeView::initial(),
    {
        WelcomeScreen {
            state: WelcomeState::SelectAction,
            selected_option: WelcomeOption::ImportExisting,
            git_url_input: TextInput::new().with_placeholder("https://github.com/user/repo.git"),
            repo_name_input: TextInput::new().with_placeholder("my-infrastructure"),
            error_message: None,
            success_message: None,
        }
    }

    pub fn state(&self) -> (state: &WelcomeState)
        ensures
            *state == self@.state,
    {
        &self.state
    }

    pub fn next(&mut self)
        ensures
            final(self)@ == old(self)@.toggle(),
    {
        if self.state == WelcomeState::SelectAction {
            self.selected_option = match self.selected_option {
                WelcomeOption::ImportExisting => WelcomeOption::CreateNew,
                WelcomeOption::CreateNew => WelcomeOption::ImportExisting,
            };
        }
    }

    pub fn previous(&mut self)
        ensures
            final(self)@ == old(self)@.toggle(),
    {
        if self.state == WelcomeState::SelectAction {
            self.selected_option = match self.selected_option {
                WelcomeOption::ImportExisting => WelcomeOption::CreateNew,
                WelcomeOption::CreateNew => WelcomeOption::ImportExisting,
            };
        }
    }

    pub fn get_selected_option(&self) -> (option: WelcomeOption)
        ensures
            option == self@.selected_option,
    {
        self.selected_option
    }

    /// Handle Enter key press, returning an action to perform.
    pub fn confirm(&mut self) -> (action: WelcomeAction)
        ensures
            final(self)@ == old(self)@.confirm(),
            action@ == old(self)@.confirm_action(),
    {
        match self.state {
            WelcomeState::SelectAction => {
                match self.selected_option {
                    WelcomeOption::ImportExisting => {
                        self.state = WelcomeState::InputGitUrl;
                        self.git_url_input.set_focused(true);
                    },
                    WelcomeOption::CreateNew => {
                        self.state = WelcomeState::InputRepoName;
                        self.repo_name_input.set_focused(true);
                    },
                }
                WelcomeAction::Nothing
            },
            WelcomeState::InputGitUrl => {
                let git_url = String::from_str(self.git_url_input.value());
                if git_url.as_str().unicode_len() == 0 {
                    self.error_message = Some(String::from_str("Git URL cannot be empty"));
                    self.state = WelcomeState::Error;
                    return WelcomeAction::Nothing;
                }
                // Extract repo name from URL
                let name = match extract_repo_name(git_url.as_str()) {
                    Some(name) => name,
                    None => String::from_str("keystone-config"),
                };
                self.state = WelcomeState::Importing;
                WelcomeAction::ImportRepo { name, git_url }
            },
            WelcomeState::InputRepoName => {
                let name = String::from_str(self.repo_name_input.value());
                if name.as_str().unicode_len() == 0 {
                    self.error_message = Some(
                        String::from_str("Repository name cannot be empty"),
                    );
                    self.state = WelcomeState::Error;
                    return WelcomeAction::Nothing;
                }
                self.state = WelcomeState::Creating;
                WelcomeAction::CreateRepo { name }
            },
            WelcomeState::Error => {
                // Dismiss error and go back to appropriate state
                self.error_message = None;
                self.state = WelcomeState::SelectAction;
                WelcomeAction::Nothing
            },
            WelcomeState::Success => {
                // User acknowledged success - signal app to transition
                WelcomeAction::Complete
            },
            _ => WelcomeAction::Nothing,
        }
    }

    /// Handle Escape key press.
    pub fn cancel(&mut self)
        ensures
            final(self)@ == old(self)@.cancel(),
    {
        match self.state {
            WelcomeState::InputGitUrl | WelcomeState::InputRepoName => {
                self.git_url_input.set_focused(false);
                self.repo_name_input.set_focused(false);
                self.state = WelcomeState::SelectAction;
            },
            WelcomeState::Error => {
                self.error_message = None;
                self.state = WelcomeState::SelectAction;
            },
            _ => {},
        }
    }

    /// Handle text input for the current state.
    pub fn handle_text_input(&mut self, key: KeyEvent) -> (consumed: bool)
        ensures
            final(self)@ == old(self)@.type_key(key),
            consumed == old(self)@.typing_consumes(key),
    {
        match self.state {
            WelcomeState::InputGitUrl => self.git_url_input.handle_key(key),
            WelcomeState::InputRepoName => self.repo_name_input.handle_key(key),
            _ => false,
        }
    }

    /// Called when import/create operation completes successfully.
    pub fn set_success(&mut self, message: String)
        ensures
            final(self)@ == (WelcomeView {
                state: WelcomeState::Success,
                success_message: Some(message@),
                ..old(self)@
            }),
    {
        self.success_message = Some(message);
        self.state = WelcomeState::Success;
    }

    /// Called when import/create operation fails.
    pub fn set_error(&mut self, message: String)
        ensures
            final(self)@ == (WelcomeView {
                state: WelcomeState::Error,
                error_message: Some(message@),
                ..old(self)@
            }),
    {
        self.error_message = Some(message);
        self.state = WelcomeState::Error;
    }

    /// The input for the git URL.
    pub fn git_url_input(&self) -> (input: &TextInput)
        ensures
            input@ == self@.git_url_input,
    {
        &self.git_url_input
    }

    /// The input for the repository name.
    pub fn repo_name_input(&self) -> (input: &TextInput)
        ensures
            input@ == self@.repo_name_input,
    {
        &self.repo_name_input
    }

    /// The message of the last failure, while it is on display.
    pub fn error_message(&self) -> (message: &Option<String>)
        ensures
            optional_text(*message) == self@.error_message,
    {
        &self.error_message
    }

    /// The message of the last success.
    pub fn success_message(&self) -> (message: &Option<String>)
        ensures
            optional_text(*message) == self@.success_message,
    {
        &self.success_message
    }
}

impl Default for WelcomeScreen {
    fn default() -> (screen: Self)
        ensures
            screen@ == WelcomeView::initial(),
    {
        WelcomeScreen::new()
    }
}

} // verus!
