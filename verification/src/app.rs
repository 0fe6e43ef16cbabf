//! The controller: screens, key presses and the answers of the service.
//!
//! The controller never waits and never sends.  A key press goes into
//! [`App::handle_key`], which may hand back a [`Command`] for the outside
//! world to carry out; the answer to a sent request goes into
//! [`App::handle_reply`], which may hand back the next command.  While an
//! answer is outstanding, key presses are ignored.

use crate::github::{
    read_deletion, read_names, read_owner, repo_url, repos_url, request_to, ClientError,
    DeleteOutcome, Method, Reply, RepositoryClient, Request, RequestView, USER_URL,
};
use crate::input::{TokenInput, TokenInputView};
use crate::list::{
    lemma_any_selected_iff_names, lemma_highlight_stays_on_list, lemma_remove_by_name_removes,
    listing, not_named, string_views, GithubContent, GithubContentView, RepositoryView, Status,
};
use vstd::prelude::*;
use vstd::string::StringExecFns;

verus! {

/// The longest token that can be typed.
pub const TOKEN_LIMIT: usize = 40;

/// The mark that freshly listed repositories carry unless the session was
/// made with another.
pub const DEFAULT_STATUS: Status = Status::Selected;

/// The page on which the service issues a token with the rights that
/// deleting takes.
pub const TOKEN_PAGE: &'static str =
    "https://github.com/settings/tokens/new?scopes=delete_repo,repo&description=Repo%20Remover%20Token";

/// The screen that is shown.
#[derive(Debug, Clone, Copy, PartialEq, Eq, Hash, Structural)]
pub enum Mode {
    /// The banner and the invitation to fetch a token.
    Welcome,
    /// The token is typed in.
    Auth,
    /// The repositories are listed and marked.
    Select,
    /// The marked repositories await the last word.
    Confirm,
}

/// What went wrong last.
#[derive(Debug, Clone, Copy, PartialEq, Eq, Hash, Structural)]
pub enum Error {
    /// A deletion was turned down, or no answer to it could be had.
    DeleteRepository,
    /// The account behind the token could not be read.
    GetRepositoryOwner,
    /// The repositories of the account could not be listed.
    GetRepositories,
    /// A deletion was asked for with nothing marked.
    NoRepositorySelected,
}

/// Whether the session goes on.
#[derive(Debug, Clone, Copy, PartialEq, Eq, Structural)]
pub enum RunningState {
    /// Keys are still read.
    Running,
    /// The session is over.
    Quit,
}

impl Default for RunningState {
    fn default() -> (state: RunningState)
        ensures
            state == RunningState::Running,
    {
        RunningState::Running
    }
}

/// The keys that the controller tells apart.
#[derive(Debug, Clone, Copy, PartialEq, Eq, Structural)]
pub enum KeyCode {
    /// A character key.
    Char(char),
    /// Enter.
    Enter,
    /// Escape.
    Esc,
    /// Backspace.
    Backspace,
    /// Arrow left.
    Left,
    /// Arrow right.
    Right,
    /// Arrow up.
    Up,
    /// Arrow down.
    Down,
    /// Any other key.
    Other,
}

/// One key press.
#[derive(Debug, Clone, Copy, PartialEq, Eq, Structural)]
pub struct KeyPress {
    /// The key.
    pub code: KeyCode,
    /// Whether Control was held.
    pub control: bool,
}

impl KeyPress {
    /// Control and `c` together: the interrupt, which ends the session from
    /// every screen.
    pub open spec fn is_interrupt(self) -> bool {
        self.control && self.code == KeyCode::Char('c')
    }

    /// The key `code` without Control.
    pub fn plain(code: KeyCode) -> (key: KeyPress)
        ensures
            key == (KeyPress { code, control: false }),
    {
        KeyPress { code, control: false }
    }

    /// The key `code` with Control held.
    pub fn with_control(code: KeyCode) -> (key: KeyPress)
        ensures
            key == (KeyPress { code, control: true }),
    {
        KeyPress { code, control: true }
    }
}

/// What the controller wants done outside.
#[derive(Debug)]
pub enum Command {
    /// Open this page in the user's browser.  Nothing is reported back, and
    /// a browser that does not open is no error of the session.
    OpenBrowser(String),
    /// Send this request and hand the answer to [`App::handle_reply`].
    Send(Request),
}

/// A [`Command`] as mathematics.
pub enum CommandView {
    /// Open this page.
    OpenBrowser(Seq<char>),
    /// Send this request.
    Send(RequestView),
}

impl View for Command {
    type V = CommandView;

    open spec fn view(&self) -> CommandView {
        match self {
            Command::OpenBrowser(page) => CommandView::OpenBrowser(page@),
            Command::Send(request) => CommandView::Send(request@),
        }
    }
}

/// The view of a command that may be absent.
pub open spec fn command_view(command: Option<Command>) -> Option<CommandView> {
    match command {
        Some(command) => Some(command@),
        None => None,
    }
}

/// The answer that the controller waits for, as mathematics.
pub enum PendingView {
    /// None: keys are read.
    Nothing,
    /// The account behind the token.
    Owner,
    /// The repositories of `owner`.
    Repositories { owner: Seq<char> },
    /// The deletion of `name`; the deletions of `later` follow, in order.
    Deletion { name: Seq<char>, later: Seq<Seq<char>> },
}

/// What an [`App`] holds, as mathematics.
pub struct AppView {
    /// Whether the session goes on.
    pub state: RunningState,
    /// The screen that is shown.
    pub mode: Mode,
    /// The token that was last submitted; empty before the first.
    pub token: Seq<char>,
    /// The field in which the token is typed.
    pub input: TokenInputView,
    /// The listed repositories, once they have been fetched.
    pub content: Option<GithubContentView>,
    /// What went wrong last, if the last action failed.
    pub error: Option<Error>,
    /// The mark that freshly listed repositories carry.
    pub default_status: Status,
    /// The answer that is outstanding.
    pub pending: PendingView,
}

impl AppView {
    /// A session at its start: the welcome screen, nothing typed, nothing
    /// fetched, nothing wrong.
    pub open spec fn initial(default_status: Status) -> AppView {
        AppView {
            state: RunningState::Running,
            mode: Mode::Welcome,
            token: Seq::empty(),
            input: TokenInputView::empty(TOKEN_LIMIT as nat),
            content: None,
            error: None,
            default_status,
            pending: PendingView::Nothing,
        }
    }

    /// At least one listed repository is marked.
    pub open spec fn any_selected(self) -> bool {
        self.content matches Some(content) && content.any_selected()
    }

    /// The account whose repositories are listed; empty before the listing.
    pub open spec fn owner(self) -> Seq<char> {
        match self.content {
            Some(content) => content.owner,
            None => Seq::empty(),
        }
    }

    /// The request that deletes `name` for the listed account.
    pub open spec fn deletion_of(self, name: Seq<char>) -> CommandView {
        CommandView::Send(request_to(self.token, Method::Delete, repo_url(self.owner(), name)))
    }

    /// The session with `input` as its token field.
    pub open spec fn with_input(self, input: TokenInputView) -> AppView {
        AppView { input, ..self }
    }

    /// The session with `content` as its list, where it has a list.
    pub open spec fn with_content(self, content: GithubContentView) -> AppView {
        match self.content {
            Some(_) => AppView { content: Some(content), ..self },
            None => self,
        }
    }

    /// The list, or an empty one while nothing is listed.
    pub open spec fn list(self) -> GithubContentView {
        match self.content {
            Some(content) => content,
            None => GithubContentView { owner: Seq::empty(), repos: Seq::empty(), cursor: None },
        }
    }

    /// The session after it was told to end.
    pub open spec fn quit(self) -> AppView {
        AppView { state: RunningState::Quit, ..self }
    }

    /// A key on the welcome screen: Enter opens the token page and goes on to
    /// the token screen; `q` and Escape end the session.
    pub open spec fn on_welcome_key(self, code: KeyCode) -> (AppView, Option<CommandView>) {
        match code {
            KeyCode::Enter => (
                AppView { mode: Mode::Auth, error: None, ..self },
                Some(CommandView::OpenBrowser(TOKEN_PAGE@)),
            ),
            KeyCode::Char(c) => if c == 'q' {
                (self.quit(), None)
            } else {
                (self, None)
            },
            KeyCode::Esc => (self.quit(), None),
            _ => (self, None),
        }
    }

    /// A key on the token screen: characters, Backspace and the arrows edit
    /// the field; Enter submits what was typed and asks for the account
    /// behind it; Escape forgets the token and goes back.
    pub open spec fn on_auth_key(self, code: KeyCode) -> (AppView, Option<CommandView>) {
        match code {
            KeyCode::Char(c) => (self.with_input(self.input.insert(c)), None),
            KeyCode::Backspace => (self.with_input(self.input.delete_before_cursor()), None),
            KeyCode::Left => (self.with_input(self.input.move_left()), None),
            KeyCode::Right => (self.with_input(self.input.move_right()), None),
            KeyCode::Enter => (
                AppView {
                    token: self.input.text,
                    input: self.input.cleared(),
                    error: None,
                    pending: PendingView::Owner,
                    ..self
                },
                Some(CommandView::Send(request_to(self.input.text, Method::Get, USER_URL@))),
            ),
            KeyCode::Esc => (
                AppView {
                    mode: Mode::Welcome,
                    token: Seq::empty(),
                    input: self.input.cleared(),
                    error: None,
                    ..self
                },
                None,
            ),
            _ => (self, None),
        }
    }

    /// A key on the list screen: Down and `j`, Up and `k` move the highlight,
    /// Space flips the mark under it; Enter goes on to the confirmation if
    /// something is marked and complains if nothing is; `q` and Escape end
    /// the session.
    pub open spec fn on_select_key(self, code: KeyCode) -> (AppView, Option<CommandView>) {
        match code {
            KeyCode::Down => (self.with_content(self.list().select_next()), None),
            KeyCode::Up => (self.with_content(self.list().select_previous()), None),
            KeyCode::Char(c) => if c == 'q' {
                (self.quit(), None)
            } else if c == 'j' {
                (self.with_content(self.list().select_next()), None)
            } else if c == 'k' {
                (self.with_content(self.list().select_previous()), None)
            } else if c == ' ' {
                (self.with_content(self.list().toggle_at_cursor()), None)
            } else {
                (self, None)
            },
            KeyCode::Esc => (self.quit(), None),
            KeyCode::Enter => if self.any_selected() {
                (AppView { mode: Mode::Confirm, error: None, ..self }, None)
            } else {
                (AppView { error: Some(Error::NoRepositorySelected), ..self }, None)
            },
            _ => (self, None),
        }
    }

    /// A key on the confirmation screen: Enter starts the pass over the
    /// marked repositories, in list order, by asking for the first deletion;
    /// Escape goes back to the list with nothing deleted.
    pub open spec fn on_confirm_key(self, code: KeyCode) -> (AppView, Option<CommandView>) {
        match code {
            KeyCode::Enter => {
                let names = self.list().selected_names();
                if names.len() > 0 {
                    (
                        AppView {
                            error: None,
                            pending: PendingView::Deletion { name: names[0], later: names.skip(1) },
                            ..self
                        },
                        Some(self.deletion_of(names[0])),
                    )
                } else {
                    (AppView { mode: Mode::Select, error: None, ..self }, None)
                }
            },
            KeyCode::Esc => (AppView { mode: Mode::Select, error: None, ..self }, None),
            _ => (self, None),
        }
    }

    /// The session after `key`, and what is to be done outside.
    ///
    /// The interrupt ends the session from anywhere.  Apart from it, a
    /// session that is over or waits for an answer takes no key.
    pub open spec fn on_key(self, key: KeyPress) -> (AppView, Option<CommandView>) {
        if key.is_interrupt() {
            (self.quit(), None)
        } else if self.state == RunningState::Quit || self.pending != PendingView::Nothing {
            (self, None)
        } else {
            match self.mode {
                Mode::Welcome => self.on_welcome_key(key.code),
                Mode::Auth => self.on_auth_key(key.code),
                Mode::Select => self.on_select_key(key.code),
                Mode::Confirm => self.on_confirm_key(key.code),
            }
        }
    }

    /// The session after the deletion of `name` ended with `outcome`: a
    /// confirmed deletion takes the repository off the list; one that was
    /// turned down, or got no answer, leaves it there and is recorded as an
    /// error; any other answer changes nothing.
    pub open spec fn deletion_settled(
        self,
        name: Seq<char>,
        outcome: Result<DeleteOutcome, ClientError>,
    ) -> AppView {
        match outcome {
            Ok(DeleteOutcome::Success) => self.with_content(self.list().remove_by_name(name)),
            Ok(DeleteOutcome::ClientRejected) => AppView {
                error: Some(Error::DeleteRepository),
                ..self
            },
            Ok(DeleteOutcome::Other) => self,
            Err(_) => AppView { error: Some(Error::DeleteRepository), ..self },
        }
    }

    /// The session after the answer `reply` to the outstanding request, and
    /// what is to be done next.  Without an outstanding request the answer
    /// is dropped.
    pub open spec fn on_reply(self, reply: Reply) -> (AppView, Option<CommandView>) {
        match self.pending {
            PendingView::Nothing => (self, None),
            PendingView::Owner => match read_owner(reply) {
                Ok(owner) => (
                    AppView { pending: PendingView::Repositories { owner }, ..self },
                    Some(CommandView::Send(request_to(self.token, Method::Get, repos_url(owner)))),
                ),
                Err(_) => (
                    AppView {
                        pending: PendingView::Nothing,
                        error: Some(Error::GetRepositoryOwner),
                        ..self
                    },
                    None,
                ),
            },
            PendingView::Repositories { owner } => match read_names(reply) {
                Ok(names) => (
                    AppView {
                        pending: PendingView::Nothing,
                        mode: Mode::Select,
                        content: Some(listing(owner, names, self.default_status)),
                        error: None,
                        ..self
                    },
                    None,
                ),
                Err(_) => (
                    AppView {
                        pending: PendingView::Nothing,
                        error: Some(Error::GetRepositories),
                        ..self
                    },
                    None,
                ),
            },
            PendingView::Deletion { name, later } => {
                let settled = self.deletion_settled(name, read_deletion(reply));
                if later.len() > 0 {
                    (
                        AppView {
                            pending: PendingView::Deletion { name: later[0], later: later.skip(1) },
                            ..settled
                        },
                        Some(settled.deletion_of(later[0])),
                    )
                } else {
                    (AppView { pending: PendingView::Nothing, mode: Mode::Select, ..settled }, None)
                }
            },
        }
    }
}

/// The answer that the controller waits for.
enum Pending {
    /// None.
    Nothing,
    /// The account behind the token.
    Owner,
    /// The repositories of `owner`.
    Repositories { owner: String },
    /// The deletion of `queue[sent]`; the names behind it follow.
    Deletion { queue: Vec<String>, sent: usize },
}

impl Pending {
    /// A queue that has run out stands for no outstanding answer.
    spec fn view(self) -> PendingView {
        match self {
            Pending::Nothing => PendingView::Nothing,
            Pending::Owner => PendingView::Owner,
            Pending::Repositories { owner } => PendingView::Repositories { owner: owner@ },
            Pending::Deletion { queue, sent } => if sent < queue@.len() {
                PendingView::Deletion {
                    name: queue@[sent as int]@,
                    later: string_views(queue@).skip(sent + 1),
                }
            } else {
                PendingView::Nothing
            },
        }
    }
}

/// The view of a list that may be absent.
pub open spec fn content_view(content: Option<GithubContent>) -> Option<GithubContentView> {
    match content {
        Some(content) => Some(content@),
        None => None,
    }
}

/// The session: which screen is shown, what was typed and fetched, what
/// went wrong last and which answer is outstanding.
pub struct App {
    state: RunningState,
    mode: Mode,
    token: String,
    token_input: TokenInput,
    github_content: Option<GithubContent>,
    error_state: Option<Error>,
    default_status: Status,
    pending: Pending,
}

impl View for App {
    type V = AppView;

    closed spec fn view(&self) -> AppView {
        AppView {
            state: self.state,
            mode: self.mode,
            token: self.token@,
            input: self.token_input@,
            content: content_view(self.github_content),
            error: self.error_state,
            default_status: self.default_status,
            pending: self.pending.view(),
        }
    }
}

impl Default for App {
    fn default() -> (app: App)
        ensures
            app@ == AppView::initial(DEFAULT_STATUS),
    {
        App::new()
    }
}

impl App {
    /// A session at its start; freshly listed repositories will carry
    /// [`DEFAULT_STATUS`].
    pub fn new() -> (app: App)
        ensures
            app@ == AppView::initial(DEFAULT_STATUS),
            app@.consistent(),
    {
        App::with_default_status(DEFAULT_STATUS)
    }

    /// A session at its start; freshly listed repositories will carry the
    /// mark `status`.
    pub fn with_default_status(status: Status) -> (app: App)
        ensures
            app@ == AppView::initial(status),
            app@.consistent(),
    {
        App {
            state: RunningState::Running,
            mode: Mode::Welcome,
            token: String::new(),
            token_input: TokenInput::new(TOKEN_LIMIT),
            github_content: None,
            error_state: None,
            default_status: status,
            pending: Pending::Nothing,
        }
    }

    /// Whether the session goes on.
    pub fn state(&self) -> (state: RunningState)
        ensures
            state == self@.state,
    {
        self.state
    }

    /// The screen that is shown.
    pub fn mode(&self) -> (mode: Mode)
        ensures
            mode == self@.mode,
    {
        self.mode
    }

    /// The token that was last submitted.
    pub fn token(&self) -> (token: &str)
        ensures
            token@ == self@.token,
    {
        self.token.as_str()
    }

    /// The field in which the token is typed.
    pub fn token_input(&self) -> (input: &TokenInput)
        ensures
            input@ == self@.input,
    {
        &self.token_input
    }

    /// The cursor of the token field, in characters from the start.
    pub fn character_index(&self) -> (index: usize)
        ensures
            index == self@.input.cursor,
            index <= self@.input.text.len(),
    {
        self.token_input.cursor_index()
    }

    /// The listed repositories, once they have been fetched.
    pub fn github_content(&self) -> (content: Option<&GithubContent>)
        ensures
            match content {
                Some(content) => self@.content == Some(content@),
                None => self@.content is None,
            },
    {
        self.github_content.as_ref()
    }

    /// What went wrong last, if the last action failed.
    pub fn error_state(&self) -> (error: Option<Error>)
        ensures
            error == self@.error,
    {
        self.error_state
    }

    /// The mark that freshly listed repositories carry.
    pub fn default_status(&self) -> (status: Status)
        ensures
            status == self@.default_status,
    {
        self.default_status
    }

    /// Whether an answer of the service is outstanding.
    pub fn is_waiting(&self) -> (waiting: bool)
        ensures
            waiting == (self@.pending != PendingView::Nothing),
    {
        match &self.pending {
            Pending::Nothing => false,
            Pending::Owner => true,
            Pending::Repositories { .. } => true,
            Pending::Deletion { queue, sent } => *sent < queue.len(),
        }
    }

    /// Ends the session.
    pub fn exit(&mut self)
        ensures
            final(self)@ == old(self)@.quit(),
    {
        self.state = RunningState::Quit;
    }

    /// Whether the session goes on.
    pub fn is_running(&self) -> (running: bool)
        ensures
            running == (self@.state == RunningState::Running),
    {
        self.state == RunningState::Running
    }

    /// Moves the cursor of the token field one character to the left.
    pub fn move_cursor_left(&mut self)
        ensures
            final(self)@ == old(self)@.with_input(old(self)@.input.move_left()),
            final(self)@.input.cursor <= final(self)@.input.text.len(),
    {
        self.token_input.move_left();
    }

    /// Moves the cursor of the token field one character to the right.
    pub fn move_cursor_right(&mut self)
        ensures
            final(self)@ == old(self)@.with_input(old(self)@.input.move_right()),
            final(self)@.input.cursor <= final(self)@.input.text.len(),
    {
        self.token_input.move_right();
    }

    /// Types `new_char` into the token field, unless the limit is reached.
    pub fn enter_char(&mut self, new_char: char)
        ensures
            final(self)@ == old(self)@.with_input(old(self)@.input.insert(new_char)),
    {
        self.token_input.insert(new_char);
    }

    /// Removes the character left of the cursor of the token field.
    pub fn delete_char(&mut self)
        ensures
            final(self)@ == old(self)@.with_input(old(self)@.input.delete_before_cursor()),
    {
        self.token_input.delete_before_cursor();
    }

    /// Puts the cursor of the token field at the start.
    pub fn reset_cursor(&mut self)
        ensures
            final(self)@ == old(self)@.with_input(
                TokenInputView { cursor: 0, ..old(self)@.input },
            ),
    {
        self.token_input.reset_cursor();
    }

    /// Empties the token field.
    pub fn submit_message(&mut self)
        ensures
            final(self)@ == old(self)@.with_input(old(self)@.input.cleared()),
    {
        self.token_input.clear();
    }

    /// Replaces what is typed in the token field by `text`.
    pub fn set_token_input(&mut self, text: &str)
        ensures
            final(self)@ == old(self)@.with_input(
                TokenInputView {
                    text: text@,
                    cursor: if old(self)@.input.cursor <= text@.len() {
                        old(self)@.input.cursor
                    } else {
                        text@.len()
                    },
                    ..old(self)@.input
                },
            ),
    {
        self.token_input.set_text(text);
    }

    /// Whether the typed token is longer than [`TOKEN_LIMIT`] characters.
    pub fn token_limit_reached(&self) -> (reached: bool)
        ensures
            reached == self@.input.is_at_limit(),
    {
        self.token_input.is_at_limit()
    }

    /// Moves the highlight to the next repository.
    pub fn select_next(&mut self)
        ensures
            final(self)@ == old(self)@.with_content(old(self)@.list().select_next()),
    {
        match &mut self.github_content {
            Some(content) => content.select_next(),
            None => {},
        }
    }

    /// Moves the highlight to the previous repository.
    pub fn select_previous(&mut self)
        ensures
            final(self)@ == old(self)@.with_content(old(self)@.list().select_previous()),
    {
        match &mut self.github_content {
            Some(content) => content.select_previous(),
            None => {},
        }
    }

    /// Flips the mark of the highlighted repository.
    pub fn toggle_status(&mut self)
        ensures
            final(self)@ == old(self)@.with_content(old(self)@.list().toggle_at_cursor()),
    {
        match &mut self.github_content {
            Some(content) => content.toggle_at_cursor(),
            None => {},
        }
    }

    /// Whether at least one listed repository is marked.
    pub fn any_selected(&self) -> (any: bool)
        ensures
            any == self@.any_selected(),
    {
        match &self.github_content {
            Some(content) => content.any_selected(),
            None => false,
        }
    }

    /// The command that deletes `name` for the listed account.
    fn delete_command(&self, name: &str) -> (command: Command)
        ensures
            command@ == self@.deletion_of(name@),
    {
        let client = RepositoryClient::new(self.token.as_str());
        let request = match &self.github_content {
            Some(content) => client.delete_request(content.owner(), name),
            None => client.delete_request("", name),
        };
        proof {
            reveal_strlit("");
        }
        Command::Send(request)
    }

    fn welcome_key(&mut self, code: KeyCode) -> (command: Option<Command>)
        ensures
            (final(self)@, command_view(command)) == old(self)@.on_welcome_key(code),
    {
        match code {
            KeyCode::Enter => {
                self.mode = Mode::Auth;
                self.error_state = None;
                Some(Command::OpenBrowser(String::from_str(TOKEN_PAGE)))
            },
            KeyCode::Char(c) => {
                if c == 'q' {
                    self.exit();
                }
                None
            },
            KeyCode::Esc => {
                self.exit();
                None
            },
            _ => None,
        }
    }

    fn auth_key(&mut self, code: KeyCode) -> (command: Option<Command>)
        ensures
            (final(self)@, command_view(command)) == old(self)@.on_auth_key(code),
    {
        match code {
            KeyCode::Char(c) => {
                self.enter_char(c);
                None
            },
            KeyCode::Backspace => {
                self.delete_char();
                None
            },
            KeyCode::Left => {
                self.move_cursor_left();
                None
            },
            KeyCode::Right => {
                self.move_cursor_right();
                None
            },
            KeyCode::Enter => {
                self.token = self.token_input.take();
                self.error_state = None;
                self.pending = Pending::Owner;
                let client = RepositoryClient::new(self.token.as_str());
                Some(Command::Send(client.owner_request()))
            },
            KeyCode::Esc => {
                self.mode = Mode::Welcome;
                self.token = String::new();
                self.token_input.clear();
                self.error_state = None;
                None
            },
            _ => None,
        }
    }

    fn select_key(&mut self, code: KeyCode) -> (command: Option<Command>)
        ensures
            (final(self)@, command_view(command)) == old(self)@.on_select_key(code),
    {
        match code {
            KeyCode::Down => self.select_next(),
            KeyCode::Up => self.select_previous(),
            KeyCode::Char(c) => {
                if c == 'q' {
                    self.exit();
                } else if c == 'j' {
                    self.select_next();
                } else if c == 'k' {
                    self.select_previous();
                } else if c == ' ' {
                    self.toggle_status();
                }
            },
            KeyCode::Esc => self.exit(),
            KeyCode::Enter => {
                if self.any_selected() {
                    self.mode = Mode::Confirm;
                    self.error_state = None;
                } else {
                    self.error_state = Some(Error::NoRepositorySelected);
                }
            },
            _ => {},
        }
        None
    }

    fn confirm_key(&mut self, code: KeyCode) -> (command: Option<Command>)
        ensures
            (final(self)@, command_view(command)) == old(self)@.on_confirm_key(code),
    {
        match code {
            KeyCode::Enter => {
                let names = match &self.github_content {
                    Some(content) => content.selected_names(),
                    None => Vec::new(),
                };
                self.error_state = None;
                if names.len() > 0 {
                    let command = self.delete_command(names[0].as_str());
                    self.pending = Pending::Deletion { queue: names, sent: 0 };
                    Some(command)
                } else {
                    self.mode = Mode::Select;
                    None
                }
            },
            KeyCode::Esc => {
                self.mode = Mode::Select;
                self.error_state = None;
                None
            },
            _ => None,
        }
    }

    /// Takes one key press.  What comes back is to be carried out before the
    /// next key is read; an answer to a sent request goes to
    /// [`App::handle_reply`].
    pub fn handle_key(&mut self, key: KeyPress) -> (command: Option<Command>)
        ensures
            (final(self)@, command_view(command)) == old(self)@.on_key(key),
            old(self)@.consistent() ==> final(self)@.consistent(),
    {
        proof {
            if self@.consistent() {
                lemma_key_keeps_consistent(self@, key);
            }
        }
        let interrupt = key.control && match key.code {
            KeyCode::Char(c) => c == 'c',
            _ => false,
        };
        if interrupt {
            self.exit();
            None
        } else if !self.is_running() || self.is_waiting() {
            None
        } else {
            match self.mode {
                Mode::Welcome => self.welcome_key(key.code),
                Mode::Auth => self.auth_key(key.code),
                Mode::Select => self.select_key(key.code),
                Mode::Confirm => self.confirm_key(key.code),
            }
        }
    }

    /// Books the end of the deletion of `name`.
    fn settle_deletion(&mut self, name: &str, outcome: Result<DeleteOutcome, ClientError>)
        ensures
            final(self)@ == old(self)@.deletion_settled(name@, outcome),
    {
        match outcome {
            Ok(DeleteOutcome::Success) => {
                match &mut self.github_content {
                    Some(content) => content.remove_by_name(name),
                    None => {},
                }
            },
            Ok(DeleteOutcome::ClientRejected) => {
                self.error_state = Some(Error::DeleteRepository);
            },
            Ok(DeleteOutcome::Other) => {},
            Err(_) => {
                self.error_state = Some(Error::DeleteRepository);
            },
        }
    }

    /// Takes the answer to the request that was last handed out.  What comes
    /// back is the next thing to carry out; `None` means that keys are read
    /// again.
    pub fn handle_reply(&mut self, reply: &Reply) -> (command: Option<Command>)
        ensures
            (final(self)@, command_view(command)) == old(self)@.on_reply(*reply),
            old(self)@.consistent() ==> final(self)@.consistent(),
    {
        proof {
            if self@.consistent() {
                lemma_reply_keeps_consistent(self@, *reply);
            }
        }
        let mut pending = Pending::Nothing;
        core::mem::swap(&mut self.pending, &mut pending);
        match pending {
            Pending::Nothing => None,
            Pending::Owner => match RepositoryClient::get_owner(reply) {
                Ok(owner) => {
                    let client = RepositoryClient::new(self.token.as_str());
                    let request = client.repos_request(owner.as_str());
                    self.pending = Pending::Repositories { owner };
                    Some(Command::Send(request))
                },
                Err(_) => {
                    self.error_state = Some(Error::GetRepositoryOwner);
                    None
                },
            },
            Pending::Repositories { owner } => match RepositoryClient::get_repos(
                reply,
                owner.as_str(),
                self.default_status,
            ) {
                Ok(content) => {
                    self.github_content = Some(content);
                    self.mode = Mode::Select;
                    self.error_state = None;
                    None
                },
                Err(_) => {
                    self.error_state = Some(Error::GetRepositories);
                    None
                },
            },
            Pending::Deletion { queue, sent } => {
                if sent < queue.len() {
                    self.settle_deletion(queue[sent].as_str(), RepositoryClient::delete_repo(reply));
                    let next = sent + 1;
                    if next < queue.len() {
                        assert(string_views(queue@).skip(sent + 1).skip(1) =~= string_views(
                            queue@,
                        ).skip(next + 1));
                        let command = self.delete_command(queue[next].as_str());
                        self.pending = Pending::Deletion { queue, sent: next };
                        Some(command)
                    } else {
                        self.mode = Mode::Select;
                        None
                    }
                } else {
                    None
                }
            },
        }
    }
}

/// Enter without Control.
pub open spec fn enter() -> KeyPress {
    KeyPress { code: KeyCode::Enter, control: false }
}

/// The answer confirms a deletion.
pub open spec fn confirms(reply: Reply) -> bool {
    read_deletion(reply) == Ok::<DeleteOutcome, ClientError>(DeleteOutcome::Success)
}

/// The answer refuses a deletion, or there was no answer.
pub open spec fn refuses(reply: Reply) -> bool {
    match read_deletion(reply) {
        Ok(DeleteOutcome::ClientRejected) => true,
        Err(_) => true,
        _ => false,
    }
}

/// Whether a repository outlives a pass that asked for the deletions of
/// `names`, in order, and got `replies`: it does unless the deletion of a
/// repository of its name was confirmed.
pub open spec fn survives(names: Seq<Seq<char>>, replies: Seq<Reply>) -> spec_fn(
    RepositoryView,
) -> bool {
    |repository: RepositoryView|
        !exists|i: int|
            0 <= i < names.len() && i < replies.len() && names[i] == repository.name && confirms(
                #[trigger] replies[i],
            )
}

/// One of the answers refuses its deletion.
pub open spec fn any_refused(replies: Seq<Reply>) -> bool {
    exists|i: int| 0 <= i < replies.len() && refuses(#[trigger] replies[i])
}

impl AppView {
    /// What holds of a session from its start on: the cursor lies in the
    /// token field and the highlight on the list; there is a list exactly on
    /// the list screen and on the confirmation; a confirmation that has not
    /// begun to delete has something marked; an answer about the account is
    /// awaited only on the token screen, one about a deletion only on the
    /// confirmation.
    pub open spec fn consistent(self) -> bool {
        &&& self.input.wf()
        &&& self.list().wf()
        &&& (self.mode == Mode::Select || self.mode == Mode::Confirm) <==> self.content is Some
        &&& (self.mode == Mode::Confirm && self.pending == PendingView::Nothing)
            ==> self.any_selected()
        &&& (self.pending is Owner || self.pending is Repositories) ==> self.mode == Mode::Auth
        &&& self.pending is Deletion ==> self.mode == Mode::Confirm
    }

    /// The session after the answers `replies` came in, one after the other.
    pub open spec fn after_replies(self, replies: Seq<Reply>) -> AppView
        decreases replies.len(),
    {
        if replies.len() == 0 {
            self
        } else {
            self.after_replies(replies.drop_last()).on_reply(replies.last()).0
        }
    }
}

/// A session starts out consistent.
pub proof fn lemma_initial_is_consistent(default_status: Status)
    ensures
        AppView::initial(default_status).consistent(),
{
}

/// No key press makes a consistent session inconsistent.
pub proof fn lemma_key_keeps_consistent(app: AppView, key: KeyPress)
    requires
        app.consistent(),
    ensures
        app.on_key(key).0.consistent(),
{
    lemma_any_selected_iff_names(app.list());
    lemma_highlight_stays_on_list(app.list());
}

/// No answer makes a consistent session inconsistent.
pub proof fn lemma_reply_keeps_consistent(app: AppView, reply: Reply)
    requires
        app.consistent(),
    ensures
        app.on_reply(reply).0.consistent(),
{
    if let PendingView::Deletion { name, later } = app.pending {
        lemma_remove_by_name_removes(app.list(), name);
    }
}

/// The guard of the confirmation: while nothing is marked, no key leads
/// from the list screen to the confirmation, and Enter records that nothing
/// is selected and changes nothing else.
pub proof fn lemma_confirmation_needs_selection(app: AppView, key: KeyPress)
    requires
        app.mode == Mode::Select,
        !app.any_selected(),
    ensures
        app.on_key(key).0.mode == Mode::Select,
        key.code == KeyCode::Enter && app.state == RunningState::Running && app.pending
            == PendingView::Nothing ==> app.on_key(key) == (
            AppView { error: Some(Error::NoRepositorySelected), ..app },
            None::<CommandView>,
        ),
{
}

/// The confirmation is entered in one way only: by Enter on the list screen
/// with something marked.  No other key leads there, and no answer does.
pub proof fn lemma_only_a_selection_is_confirmed(app: AppView, key: KeyPress, reply: Reply)
    requires
        app.mode != Mode::Confirm,
    ensures
        app.on_reply(reply).0.mode != Mode::Confirm,
        app.on_key(key).0.mode == Mode::Confirm ==> app.mode == Mode::Select && app.any_selected()
            && key.code == KeyCode::Enter,
{
}

/// Once the repositories are listed, the account that owns them stays the
/// same for the rest of the session.
pub proof fn lemma_owner_is_set_once(app: AppView, key: KeyPress, reply: Reply)
    requires
        app.consistent(),
        app.content is Some,
    ensures
        app.on_key(key).0.content is Some,
        app.on_key(key).0.owner() == app.owner(),
        app.on_reply(reply).0.content is Some,
        app.on_reply(reply).0.owner() == app.owner(),
{
}

/// The list screen is reached from the token screen by nothing but a
/// listing that succeeded, and then shows exactly what was listed, each
/// repository with the session's mark.
pub proof fn lemma_list_needs_listing(app: AppView, key: KeyPress, reply: Reply)
    requires
        app.consistent(),
        app.mode == Mode::Auth,
    ensures
        app.on_key(key).0.mode != Mode::Select,
        app.on_reply(reply).0.mode == Mode::Select ==> ({
            &&& app.pending matches PendingView::Repositories { owner }
            &&& read_names(reply) matches Ok(names)
            &&& app.on_reply(reply).0.content == Some(listing(owner, names, app.default_status))
        }),
{
}

/// The screens follow one another in one order only: from the welcome to
/// the token screen and back, from the token screen to the list, and
/// between the list and the confirmation.  A key moves along one such step
/// or stays; an answer leads to the list or stays.
pub proof fn lemma_screens_follow_in_order(app: AppView, key: KeyPress, reply: Reply)
    requires
        app.consistent(),
    ensures
        ({
            let after = app.on_key(key).0.mode;
            ||| after == app.mode
            ||| app.mode == Mode::Welcome && after == Mode::Auth
            ||| app.mode == Mode::Auth && after == Mode::Welcome
            ||| app.mode == Mode::Select && after == Mode::Confirm
            ||| app.mode == Mode::Confirm && after == Mode::Select
        }),
        ({
            let after = app.on_reply(reply).0.mode;
            ||| after == app.mode
            ||| app.mode == Mode::Auth && after == Mode::Select
            ||| app.mode == Mode::Confirm && after == Mode::Select
        }),
{
}

/// An error stays until an action that could change the screen overwrites
/// it: typing, moving the cursor or the highlight, marking and leaving do
/// not touch it.
pub proof fn lemma_error_outlives_editing(app: AppView, key: KeyPress)
    requires
        key.code != KeyCode::Enter,
        key.code != KeyCode::Esc,
    ensures
        app.on_key(key).0.error == app.error,
{
}

/// Two tests that agree on every element of a sequence keep the same
/// elements of it.
proof fn lemma_filter_agree<A>(s: Seq<A>, p: spec_fn(A) -> bool, q: spec_fn(A) -> bool)
    requires
        forall|i: int| 0 <= i < s.len() ==> p(#[trigger] s[i]) == q(s[i]),
    ensures
        s.filter(p) == s.filter(q),
    decreases s.len(),
{
    reveal(Seq::filter);
    if s.len() > 0 {
        lemma_filter_agree(s.drop_last(), p, q);
    }
}

/// A test that every element passes keeps the whole sequence.
proof fn lemma_filter_keeps_all<A>(s: Seq<A>, p: spec_fn(A) -> bool)
    requires
        forall|i: int| 0 <= i < s.len() ==> p(#[trigger] s[i]),
    ensures
        s.filter(p) == s,
    decreases s.len(),
{
    reveal(Seq::filter);
    if s.len() > 0 {
        lemma_filter_keeps_all(s.drop_last(), p);
    }
}

/// Filtering by one test and then by another keeps what passes both.
proof fn lemma_filter_twice<A>(
    s: Seq<A>,
    p: spec_fn(A) -> bool,
    q: spec_fn(A) -> bool,
    both: spec_fn(A) -> bool,
)
    requires
        forall|i: int| 0 <= i < s.len() ==> both(#[trigger] s[i]) == (p(s[i]) && q(s[i])),
    ensures
        s.filter(p).filter(q) == s.filter(both),
    decreases s.len(),
{
    reveal(Seq::filter);
    if s.len() > 0 {
        lemma_filter_twice(s.drop_last(), p, q, both);
        if p(s.last()) {
            s.drop_last().filter(p).lemma_filter_push(s.last(), q);
        }
    }
}

/// Where a pass stands after some of its answers.
///
/// `app` is the session on the confirmation, before Enter; `replies` are the
/// answers so far, at most one for each marked repository.
proof fn lemma_pass_progress(app: AppView, replies: Seq<Reply>)
    requires
        app.mode == Mode::Confirm,
        app.state == RunningState::Running,
        app.pending == PendingView::Nothing,
        0 < app.list().selected_names().len(),
        replies.len() <= app.list().selected_names().len(),
    ensures
        ({
            let names = app.list().selected_names();
            let now = app.on_key(enter()).0.after_replies(replies);
            let done = replies.len() as int;
            &&& now.state == app.state
            &&& now.token == app.token
            &&& now.input == app.input
            &&& now.default_status == app.default_status
            &&& now.content is Some
            &&& now.owner() == app.owner()
            &&& now.list().repos == app.list().repos.filter(survives(names, replies))
            &&& now.error == if any_refused(replies) {
                Some(Error::DeleteRepository)
            } else {
                None
            }
            &&& done < names.len() ==> now.mode == Mode::Confirm && now.pending
                == (PendingView::Deletion { name: names[done], later: names.skip(done + 1) })
            &&& done == names.len() ==> now.mode == Mode::Select && now.pending
                == PendingView::Nothing
        }),
    decreases replies.len(),
{
    let names = app.list().selected_names();
    let repos = app.list().repos;
    if replies.len() == 0 {
        lemma_filter_keeps_all(repos, survives(names, replies));
    } else {
        let earlier = replies.drop_last();
        let last = replies.last();
        let done = earlier.len() as int;
        lemma_pass_progress(app, earlier);
        if done + 1 < names.len() {
            assert(names.skip(done + 1).skip(1) =~= names.skip(done + 2));
        }
        // What is left of the list: an answer that confirms takes the
        // repositories of its name away, any other answer takes nothing.
        if confirms(last) {
            assert forall|i: int| 0 <= i < repos.len() implies survives(names, replies)(
                #[trigger] repos[i],
            ) == (survives(names, earlier)(repos[i]) && not_named(names[done])(repos[i])) by {
                if !survives(names, replies)(repos[i]) {
                    let j = choose|j: int|
                        0 <= j < names.len() && j < replies.len() && names[j] == repos[i].name
                            && confirms(#[trigger] replies[j]);
                    if j < done {
                        assert(confirms(earlier[j]));
                    }
                }
            }
            lemma_filter_twice(
                repos,
                survives(names, earlier),
                not_named(names[done]),
                survives(names, replies),
            );
        } else {
            assert forall|i: int| 0 <= i < repos.len() implies survives(names, replies)(
                #[trigger] repos[i],
            ) == survives(names, earlier)(repos[i]) by {
                if !survives(names, replies)(repos[i]) {
                    let j = choose|j: int|
                        0 <= j < names.len() && j < replies.len() && names[j] == repos[i].name
                            && confirms(#[trigger] replies[j]);
                    assert(confirms(earlier[j]));
                }
            }
            lemma_filter_agree(repos, survives(names, replies), survives(names, earlier));
        }
        // Whether something was refused: before, or just now.
        if any_refused(replies) {
            let j = choose|j: int| 0 <= j < replies.len() && refuses(#[trigger] replies[j]);
            if j < done {
                assert(refuses(earlier[j]));
            }
        }
    }
}

/// What a pass asks for when an answer comes in: the deletion of the next
/// marked repository, or nothing after the last.
proof fn lemma_pass_asks_for_the_next(app: AppView, earlier: Seq<Reply>, reply: Reply)
    requires
        app.mode == Mode::Confirm,
        app.state == RunningState::Running,
        app.pending == PendingView::Nothing,
        0 < app.list().selected_names().len(),
        earlier.len() < app.list().selected_names().len(),
    ensures
        ({
            let names = app.list().selected_names();
            let before = app.on_key(enter()).0.after_replies(earlier);
            let next = earlier.len() as int + 1;
            before.on_reply(reply).1 == if next < names.len() {
                Some(app.deletion_of(names[next]))
            } else {
                None
            }
        }),
{
    // The account and the token are still those of the start, whatever the
    // answer does to the list.
    lemma_pass_progress(app, earlier);
}

/// What a pass over the marked repositories does.
///
/// `app` is a session on the confirmation screen.  Enter asks for the
/// deletion of the first marked repository; each answer but the last is
/// followed by the request for the next marked repository, in list order, so
/// that one request is under way at a time and an unmarked repository is
/// never asked about.  When the last answer is in, the list screen shows
/// again.  A repository has then left the list if and only if the deletion
/// of a repository of its name was confirmed; the others are where they
/// were, with their marks.  The error is set if and only if a deletion was
/// refused or went unanswered.
pub proof fn lemma_pass_deletes_what_was_confirmed(app: AppView, replies: Seq<Reply>)
    requires
        app.mode == Mode::Confirm,
        app.state == RunningState::Running,
        app.pending == PendingView::Nothing,
        0 < app.list().selected_names().len(),
        replies.len() == app.list().selected_names().len(),
    ensures
        ({
            let names = app.list().selected_names();
            let started = app.on_key(enter()).0;
            let end = started.after_replies(replies);
            &&& app.on_key(enter()).1 == Some(app.deletion_of(names[0]))
            &&& forall|k: int|
                0 <= k < replies.len() ==> started.after_replies(replies.take(k)).on_reply(
                    #[trigger] replies[k],
                ).1 == if k + 1 < names.len() {
                    Some(app.deletion_of(names[k + 1]))
                } else {
                    None
                }
            &&& end.mode == Mode::Select
            &&& end.pending == PendingView::Nothing
            &&& end.state == app.state
            &&& end.token == app.token
            &&& end.owner() == app.owner()
            &&& end.list().repos == app.list().repos.filter(survives(names, replies))
            &&& forall|repository: RepositoryView|
                #[trigger] end.list().repos.contains(repository) <==> app.list().repos.contains(
                    repository,
                ) && survives(names, replies)(repository)
            &&& end.error == if any_refused(replies) {
                Some(Error::DeleteRepository)
            } else {
                None
            }
        }),
{
    let names = app.list().selected_names();
    let repos = app.list().repos;
    let started = app.on_key(enter()).0;
    let end = started.after_replies(replies);
    lemma_pass_progress(app, replies);
    assert forall|k: int| 0 <= k < replies.len() implies started.after_replies(
        replies.take(k),
    ).on_reply(#[trigger] replies[k]).1 == if k + 1 < names.len() {
        Some(app.deletion_of(names[k + 1]))
    } else {
        None
    } by {
        lemma_pass_asks_for_the_next(app, replies.take(k), replies[k]);
    }
    let kept = repos.filter(survives(names, replies));
    assert forall|repository: RepositoryView| #[trigger]
        kept.contains(repository) <==> repos.contains(repository) && survives(names, replies)(
            repository,
        ) by {
        if kept.contains(repository) {
            repos.lemma_filter_contains_rev(survives(names, replies), repository);
            let k = choose|k: int| 0 <= k < kept.len() && kept[k] == repository;
            repos.lemma_filter_pred(survives(names, replies), k);
        }
        if repos.contains(repository) && survives(names, replies)(repository) {
            let i = choose|i: int| 0 <= i < repos.len() && repos[i] == repository;
            repos.lemma_filter_contains(survives(names, replies), i);
        }
    }
}

} // verus!
