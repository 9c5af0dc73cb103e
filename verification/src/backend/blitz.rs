//! The decisions of the engine about top-level pages: what is requested, what
//! is shown, and what the chrome is told.
//!
//! Building documents, fetching and painting is done outside.  Each method here
//! says what is to be done next, and what came of it is handed back.

use crate::backend::history::{History, HistoryAction, VisitedPages};
use crate::backend::input::InputState;
use crate::backend::prefetch::{PendingPage, ScriptSource};
use crate::backend::{BackendError, BrowserSnapshot, BrowserTextInput, LoadState};
use crate::location::{
    address_outcome, fetches_pages, is_web_scheme, normalize_location, normalized, optional_text,
    parse_outcome, parsed_url, PageUrl, UrlParts,
};
use crate::markup::{error_page, error_page_text, WELCOME_HTML};
use crate::network::{
    is_success, response_text, succeeded, FetchResponse, ResponseParts, MAX_TEXT_BYTES,
};
use crate::scalar::Real32;
use crate::text::{copy_of, decimal, decimal_digits, same_text, trim, trimmed};
use vstd::prelude::*;

verus! {

/// The name of the engine.
pub const BACKEND_NAME: &'static str = "Blitz";

/// The address of the page that the browser brings along.
pub const WELCOME_URL: &'static str = "about:myrica";

/// The title of that page.
pub const WELCOME_TITLE: &'static str = "Myrica";

/// The title of the page that is shown in place of one that did not load.
pub const ERROR_TITLE: &'static str = "Could not load page";

/// A loading state, as plain values.
pub ghost enum LoadParts {
    Idle,
    Loading,
    Ready,
    Failed(Seq<char>),
}

impl View for LoadState {
    type V = LoadParts;

    open spec fn view(&self) -> LoadParts {
        match self {
            LoadState::Idle => LoadParts::Idle,
            LoadState::Loading => LoadParts::Loading,
            LoadState::Ready => LoadParts::Ready,
            LoadState::Failed(message) => LoadParts::Failed(message@),
        }
    }
}

/// The state of the engine, as plain values.
pub ghost struct EngineState {
    pub url: Seq<char>,
    pub title: Seq<char>,
    pub load: LoadParts,
    pub can_go_back: bool,
    pub can_go_forward: bool,
    pub history: VisitedPages,
    /// The number of the load that is current.
    pub generation: u64,
    /// Whether there is a load that can be aborted.
    pub abortable: bool,
    pub input: InputState,
}

/// The state of the engine.
pub struct BlitzBackend {
    pub snapshot: BrowserSnapshot,
    pub history: History,
    pub load_generation: u64,
    pub abortable: bool,
    pub input: InputState,
}

/// A page that is to be requested.
#[derive(Debug, PartialEq)]
pub struct PageRequest {
    pub url: String,
    /// The number of the load, which comes back with the answer.
    pub generation: u64,
    pub history_action: HistoryAction,
}

/// What is to be done about a navigation, in this order: abort the load before
/// it, show a page, request a page.
#[derive(Debug, PartialEq)]
pub struct NavigationStep {
    pub abort: bool,
    /// The markup of the page to show.
    pub show: Option<String>,
    pub request: Option<PageRequest>,
}

/// A page that is to be requested, as plain values.
pub ghost struct RequestParts {
    pub url: Seq<char>,
    pub generation: u64,
    pub history_action: HistoryAction,
}

/// What is to be done about a navigation, as plain values.
pub ghost struct StepParts {
    pub abort: bool,
    pub show: Option<Seq<char>>,
    pub request: Option<RequestParts>,
}

impl View for NavigationStep {
    type V = StepParts;

    open spec fn view(&self) -> StepParts {
        StepParts {
            abort: self.abort,
            show: optional_text(self.show),
            request: match self.request {
                Some(request) => Some(
                    RequestParts {
                        url: request.url@,
                        generation: request.generation,
                        history_action: request.history_action,
                    },
                ),
                None => None,
            },
        }
    }
}

/// An optional step, as plain values.
pub open spec fn optional_step(step: Option<NavigationStep>) -> Option<StepParts> {
    match step {
        Some(step) => Some(step@),
        None => None,
    }
}

/// The number of the load after the given one; the numbers start over when they
/// run out.
pub open spec fn next_generation(generation: u64) -> u64 {
    if generation == u64::MAX {
        0
    } else {
        (generation + 1) as u64
    }
}

/// The title that a page is shown under: its own, or its URL where that is
/// blank.
pub open spec fn shown_title(title: Option<Seq<char>>, url: Seq<char>) -> Seq<char> {
    match title {
        Some(title) => if trimmed(title).len() > 0 {
            title
        } else {
            url
        },
        None => url,
    }
}

/// How a page that arrived with the given status stands.
pub open spec fn state_for(status: u16) -> LoadParts {
    if is_success(status) {
        LoadParts::Ready
    } else {
        LoadParts::Failed("HTTP "@ + decimal_digits(status as nat))
    }
}

impl EngineState {
    /// Before anything has been asked for.
    pub open spec fn initial() -> EngineState {
        EngineState {
            url: WELCOME_URL@,
            title: WELCOME_TITLE@,
            load: LoadParts::Idle,
            can_go_back: false,
            can_go_forward: false,
            history: VisitedPages { entries: Seq::empty(), place: None },
            generation: 0,
            abortable: false,
            input: InputState::initial(),
        }
    }

    /// Whether the chrome is told rightly where the history leads.
    pub open spec fn tells_history(self) -> bool {
        &&& self.can_go_back == self.history.has_previous()
        &&& self.can_go_forward == self.history.has_next()
    }

    /// The state with what the chrome is told of the history brought up to
    /// date.
    pub open spec fn with_history_flags(self) -> EngineState {
        EngineState {
            can_go_back: self.history.has_previous(),
            can_go_forward: self.history.has_next(),
            ..self
        }
    }

    /// Once the load under way no longer counts.
    pub open spec fn outdated(self) -> EngineState {
        EngineState { generation: next_generation(self.generation), abortable: false, ..self }
    }

    /// Once a page has been requested.
    pub open spec fn requested(self, url: Seq<char>) -> EngineState {
        EngineState {
            url,
            load: LoadParts::Loading,
            abortable: true,
            ..self.outdated()
        }.with_history_flags()
    }

    /// What is to be done to request a page.
    pub open spec fn request_step(self, url: Seq<char>, action: HistoryAction) -> StepParts {
        StepParts {
            abort: self.abortable,
            show: None,
            request: Some(
                RequestParts {
                    url,
                    generation: next_generation(self.generation),
                    history_action: action,
                },
            ),
        }
    }

    /// Once the page that the browser brings along is shown.
    pub open spec fn welcomed(self) -> EngineState {
        EngineState {
            url: WELCOME_URL@,
            title: WELCOME_TITLE@,
            load: LoadParts::Ready,
            ..self.outdated()
        }
    }

    /// Once the page is shown that says why another did not load.
    pub open spec fn failed(self, url: Seq<char>, error: Seq<char>) -> EngineState {
        EngineState { url, title: ERROR_TITLE@, load: LoadParts::Failed(error), ..self }
    }

    /// Once a user has asked for a page whose address came to `outcome`.
    pub open spec fn answered(
        self,
        location: Seq<char>,
        outcome: Result<UrlParts, Seq<char>>,
    ) -> EngineState {
        match outcome {
            Ok(page) => self.requested(page.href),
            Err(error) => self.outdated().failed(location, error),
        }
    }

    /// What is to be done when a user asks for a page whose address came to
    /// `outcome`.
    pub open spec fn answer_step(
        self,
        location: Seq<char>,
        outcome: Result<UrlParts, Seq<char>>,
    ) -> StepParts {
        match outcome {
            Ok(page) => self.request_step(page.href, HistoryAction::Push),
            Err(error) => StepParts {
                abort: self.abortable,
                show: Some(error_page_text(location, error)),
                request: None,
            },
        }
    }

    /// Once a user has asked for a page.
    pub open spec fn navigated(self, location: Seq<char>) -> EngineState {
        if trimmed(location) == WELCOME_URL@ {
            self.welcomed()
        } else {
            self.answered(location, normalized(location))
        }
    }

    /// What is to be done when a user asks for a page.
    pub open spec fn navigation_step(self, location: Seq<char>) -> StepParts {
        if trimmed(location) == WELCOME_URL@ {
            StepParts { abort: self.abortable, show: Some(WELCOME_HTML@), request: None }
        } else {
            self.answer_step(location, normalized(location))
        }
    }

    /// Once a page is shown that was loaded.
    pub open spec fn loaded(
        self,
        action: HistoryAction,
        url: Seq<char>,
        title: Option<Seq<char>>,
        status: u16,
    ) -> EngineState {
        EngineState {
            history: self.history.after(action, url),
            url,
            title: shown_title(title, url),
            load: state_for(status),
            ..self
        }.with_history_flags()
    }

    /// Once it is known that a requested page could not be loaded.
    pub open spec fn not_loaded(
        self,
        action: HistoryAction,
        url: Seq<char>,
        error: Seq<char>,
    ) -> EngineState {
        EngineState { history: self.history.after(action, url), ..self }.failed(
            url,
            error,
        ).with_history_flags()
    }

    /// The place in the history to go to, and the URL there.
    pub open spec fn entry(self, place: int) -> Option<(int, Seq<char>)> {
        if 0 <= place < self.history.entries.len() {
            Some((place, self.history.entries[place]))
        } else {
            None
        }
    }

    /// The page before the current one.
    pub open spec fn previous_entry(self) -> Option<(int, Seq<char>)> {
        match self.history.place {
            Some(place) => self.entry(place - 1),
            None => None,
        }
    }

    /// The page after the current one.
    pub open spec fn next_entry(self) -> Option<(int, Seq<char>)> {
        match self.history.place {
            Some(place) => self.entry(place + 1),
            None => None,
        }
    }

    /// What is requested when the user goes to an entry of the history: the URL
    /// there, if it is one.
    pub open spec fn traversal(entry: Option<(int, Seq<char>)>) -> Option<
        (Seq<char>, HistoryAction),
    > {
        match entry {
            Some((place, text)) => match parsed_url(text) {
                Ok(page) => Some((page.href, HistoryAction::Traverse(place as usize))),
                Err(_) => None,
            },
            None => None,
        }
    }

    /// Once what is requested, if anything, has been.
    pub open spec fn maybe_requested(
        self,
        request: Option<(Seq<char>, HistoryAction)>,
    ) -> EngineState {
        match request {
            Some((url, _)) => self.requested(url),
            None => self,
        }
    }

    /// What is to be done to request what is requested, if anything.
    pub open spec fn maybe_step(self, request: Option<(Seq<char>, HistoryAction)>) -> Option<
        StepParts,
    > {
        match request {
            Some((url, action)) => Some(self.request_step(url, action)),
            None => None,
        }
    }

    /// What is requested when the user reloads the page.
    pub open spec fn reload_request(self) -> Option<(Seq<char>, HistoryAction)> {
        reload_target(parsed_url(self.url))
    }
}

/// What is requested when the user reloads a page whose URL came to `outcome`.
pub open spec fn reload_target(outcome: Result<UrlParts, Seq<char>>) -> Option<
    (Seq<char>, HistoryAction),
> {
    match outcome {
        Ok(page) => if is_web_scheme(page.scheme) {
            Some((page.href, HistoryAction::Reload))
        } else {
            None
        },
        Err(_) => None,
    }
}

/// What is requested when a page asks for another one: nothing if it is not the
/// page that is shown.
pub open spec fn link_request(
    shown: Option<usize>,
    source: usize,
    replace: bool,
    url: Seq<char>,
) -> Option<(Seq<char>, HistoryAction)> {
    if shown is Some && shown != Some(source) {
        None
    } else if replace {
        Some((url, HistoryAction::Reload))
    } else {
        Some((url, HistoryAction::Push))
    }
}

/// A page that has been built and is about to be shown.
#[derive(Debug, PartialEq, Eq)]
pub struct LoadedPage {
    pub final_url: String,
    pub status: u16,
    /// The text of its title element, if it has one.
    pub title: Option<String>,
}

/// What became of the answer to a request.
#[derive(Debug, PartialEq, Eq)]
pub enum Applied {
    /// It belongs to an earlier load and is dropped.
    Stale,
    /// The page that was built is shown.
    Shown,
    /// A page with this markup is shown in its place.
    ErrorPage(String),
}

/// What reaches the engine from outside.
#[derive(Debug)]
pub enum BackendMessage {
    /// The document `source` asks for another page.
    Navigate { source: usize, replace: bool, url: String },
    /// A requested page has arrived, or has failed.
    RootLoaded {
        generation: u64,
        requested_url: String,
        history_action: HistoryAction,
        result: Result<FetchResponse, String>,
    },
    /// The scripts of a page have arrived.
    ScriptsLoaded { page: PendingPage, sources: Vec<ScriptSource> },
}

/// What is to be done about a message.
#[derive(Debug)]
pub enum MessageStep {
    /// Nothing.
    Ignore,
    /// Request a page.
    Start(NavigationStep),
    /// Find the scripts of the page with this markup, and prefetch them.
    Probe(PendingPage, String),
    /// Build the page with this markup and these scripts, and hand back its
    /// title.
    Build(PendingPage, String, Vec<ScriptSource>),
    /// Show the page with this markup.
    ShowError(String),
}

impl MessageStep {
    /// Whether doing so changes what is shown.
    pub fn changes_page(&self) -> (result: bool)
        ensures
            result == (self is Start || self is Build || self is ShowError),
    {
        match self {
            MessageStep::Ignore => false,
            MessageStep::Probe(_, _) => false,
            MessageStep::Start(_) => true,
            MessageStep::Build(_, _, _) => true,
            MessageStep::ShowError(_) => true,
        }
    }
}

impl View for BlitzBackend {
    type V = EngineState;

    open spec fn view(&self) -> EngineState {
        EngineState {
            url: self.snapshot.url@,
            title: self.snapshot.title@,
            load: self.snapshot.load_state@,
            can_go_back: self.snapshot.can_go_back,
            can_go_forward: self.snapshot.can_go_forward,
            history: self.history@,
            generation: self.load_generation,
            abortable: self.abortable,
            input: self.input,
        }
    }
}

impl BlitzBackend {
    /// The history is a history, and the chrome is told of it rightly.
    pub open spec fn wf(self) -> bool {
        &&& self.history.wf()
        &&& self.snapshot.backend_name@ == BACKEND_NAME@
        &&& self.snapshot.text_input is None
        &&& self@.tells_history()
    }

    /// An engine, and the markup of the page that it begins with.
    pub fn new() -> (result: (BlitzBackend, &'static str))
        ensures
            result.0.wf(),
            result.0@ == EngineState::initial(),
            result.1@ == WELCOME_HTML@,
    {
        let snapshot = BrowserSnapshot {
            backend_name: BACKEND_NAME,
            url: copy_of(WELCOME_URL),
            title: copy_of(WELCOME_TITLE),
            load_state: LoadState::Idle,
            can_go_back: false,
            can_go_forward: false,
            text_input: None,
        };
        let backend = BlitzBackend {
            snapshot,
            history: History::new(),
            load_generation: 0,
            abortable: false,
            input: InputState::new(),
        };
        assert(backend.history@.entries =~= Seq::empty());
        (backend, WELCOME_HTML)
    }

    fn update_history_flags(&mut self)
        ensures
            final(self)@ == old(self)@.with_history_flags(),
            final(self).history == old(self).history,
            final(self).snapshot.backend_name == old(self).snapshot.backend_name,
            final(self).snapshot.text_input == old(self).snapshot.text_input,
    {
        self.snapshot.can_go_back = self.history.can_go_back();
        self.snapshot.can_go_forward = self.history.can_go_forward();
    }

    /// Let the load under way no longer count; returns whether it is to be
    /// stopped.
    fn outdate_load(&mut self) -> (abort: bool)
        requires
            old(self).wf(),
        ensures
            final(self).wf(),
            final(self)@ == old(self)@.outdated(),
            abort == old(self)@.abortable,
    {
        let abort = self.abortable;
        self.abortable = false;
        self.load_generation = if self.load_generation == u64::MAX {
            0
        } else {
            self.load_generation + 1
        };
        abort
    }

    /// Request a page.
    pub fn start_request(&mut self, url: String, history_action: HistoryAction) -> (step:
        NavigationStep)
        requires
            old(self).wf(),
        ensures
            final(self).wf(),
            final(self)@ == old(self)@.requested(url@),
            step@ == old(self)@.request_step(url@, history_action),
    {
        let abort = self.outdate_load();
        self.abortable = true;
        self.snapshot.url = copy_of(url.as_str());
        self.snapshot.load_state = LoadState::Loading;
        self.update_history_flags();
        NavigationStep {
            abort,
            show: None,
            request: Some(PageRequest { url, generation: self.load_generation, history_action }),
        }
    }

    /// Show the page that says why the one at `url` did not load; returns its
    /// markup.
    fn show_error_page(&mut self, url: &str, error: &str) -> (html: String)
        requires
            old(self).wf(),
        ensures
            final(self).wf(),
            final(self)@ == old(self)@.failed(url@, error@),
            html@ == error_page_text(url@, error@),
    {
        let html = error_page(url, error);
        self.snapshot.url = copy_of(url);
        self.snapshot.title = copy_of(ERROR_TITLE);
        self.snapshot.load_state = LoadState::Failed(copy_of(error));
        html
    }

    /// Start a new top-level navigation.
    pub fn navigate(&mut self, location: &str) -> (result: (NavigationStep, Result<(), BackendError>))
        requires
            old(self).wf(),
        ensures
            final(self).wf(),
            final(self)@ == old(self)@.navigated(location@),
            result.0@ == old(self)@.navigation_step(location@),
            trimmed(location@) == WELCOME_URL@ ==> result.1 is Ok,
            trimmed(location@) != WELCOME_URL@ ==> match normalized(location@) {
                Ok(_) => result.1 is Ok,
                Err(error) => result.1 matches Err(message) && message.message_text() == error,
            },
    {
        if same_text(trim(location).as_str(), WELCOME_URL) {
            let abort = self.outdate_load();
            self.snapshot.url = copy_of(WELCOME_URL);
            self.snapshot.title = copy_of(WELCOME_TITLE);
            self.snapshot.load_state = LoadState::Ready;
            let step = NavigationStep {
                abort,
                show: Some(copy_of(WELCOME_HTML)),
                request: None,
            };
            return (step, Ok(()));
        }
        self.answer_address(location, normalize_location(location))
    }

    /// Request the page that an address came to, or show why it came to none.
    pub fn answer_address(
        &mut self,
        location: &str,
        outcome: Result<PageUrl, BackendError>,
    ) -> (result: (NavigationStep, Result<(), BackendError>))
        requires
            old(self).wf(),
        ensures
            final(self).wf(),
            final(self)@ == old(self)@.answered(location@, address_outcome(outcome)),
            result.0@ == old(self)@.answer_step(location@, address_outcome(outcome)),
            match outcome {
                Ok(_) => result.1 is Ok,
                Err(error) => result.1 == Err::<(), BackendError>(error),
            },
    {
        match outcome {
            Ok(page) => (self.start_request(page.href, HistoryAction::Push), Ok(())),
            Err(error) => {
                let message = error.message();
                let abort = self.outdate_load();
                let html = self.show_error_page(location, message.as_str());
                (NavigationStep { abort, show: Some(html), request: None }, Err(error))
            },
        }
    }

    /// Reload the current top-level document.
    pub fn reload(&mut self) -> (step: Option<NavigationStep>)
        requires
            old(self).wf(),
        ensures
            final(self).wf(),
            final(self)@ == old(self)@.maybe_requested(old(self)@.reload_request()),
            optional_step(step) == old(self)@.maybe_step(old(self)@.reload_request()),
    {
        let outcome = PageUrl::parse(self.snapshot.url.as_str());
        self.reload_page(outcome)
    }

    /// Reload the page whose URL came to `outcome`, if it can be fetched.
    pub fn reload_page(&mut self, outcome: Result<PageUrl, String>) -> (step: Option<
        NavigationStep,
    >)
        requires
            old(self).wf(),
        ensures
            final(self).wf(),
            final(self)@ == old(self)@.maybe_requested(reload_target(parse_outcome(outcome))),
            optional_step(step) == old(self)@.maybe_step(reload_target(parse_outcome(outcome))),
    {
        match outcome {
            Ok(page) => if fetches_pages(page.scheme.as_str()) {
                Some(self.start_request(page.href, HistoryAction::Reload))
            } else {
                None
            },
            Err(_) => None,
        }
    }

    /// Navigate to the previous history entry when one exists.
    pub fn go_back(&mut self) -> (step: Option<NavigationStep>)
        requires
            old(self).wf(),
        ensures
            final(self).wf(),
            final(self)@ == old(self)@.maybe_requested(
                EngineState::traversal(old(self)@.previous_entry()),
            ),
            optional_step(step) == old(self)@.maybe_step(
                EngineState::traversal(old(self)@.previous_entry()),
            ),
    {
        let (place, parsed) = match self.history.previous_page() {
            Some((place, url)) => (place, PageUrl::parse(url.as_str())),
            None => return None,
        };
        match parsed {
            Ok(page) => Some(self.start_request(page.href, HistoryAction::Traverse(place))),
            Err(_) => None,
        }
    }

    /// Navigate to the next history entry when one exists.
    pub fn go_forward(&mut self) -> (step: Option<NavigationStep>)
        requires
            old(self).wf(),
        ensures
            final(self).wf(),
            final(self)@ == old(self)@.maybe_requested(
                EngineState::traversal(old(self)@.next_entry()),
            ),
            optional_step(step) == old(self)@.maybe_step(
                EngineState::traversal(old(self)@.next_entry()),
            ),
    {
        let (place, parsed) = match self.history.next_page() {
            Some((place, url)) => (place, PageUrl::parse(url.as_str())),
            None => return None,
        };
        match parsed {
            Ok(page) => Some(self.start_request(page.href, HistoryAction::Traverse(place))),
            Err(_) => None,
        }
    }

    /// Follow what a document asks for, if it is the one that is shown.
    pub fn follow_link(
        &mut self,
        shown: Option<usize>,
        source: usize,
        replace: bool,
        url: String,
    ) -> (step: Option<NavigationStep>)
        requires
            old(self).wf(),
        ensures
            final(self).wf(),
            final(self)@ == old(self)@.maybe_requested(link_request(shown, source, replace, url@)),
            optional_step(step) == old(self)@.maybe_step(
                link_request(shown, source, replace, url@),
            ),
    {
        if let Some(document) = shown {
            if document != source {
                return None;
            }
        }
        let action = if replace {
            HistoryAction::Reload
        } else {
            HistoryAction::Push
        };
        Some(self.start_request(url, action))
    }

    /// Take the answer to a request: the page that was built of it, or the
    /// reason why there is none.  An answer to an earlier request is dropped.
    pub fn apply_root_response(
        &mut self,
        generation: u64,
        requested_url: &str,
        history_action: HistoryAction,
        result: Result<LoadedPage, String>,
    ) -> (applied: Applied)
        requires
            old(self).wf(),
        ensures
            final(self).wf(),
            generation != old(self).load_generation ==> applied is Stale && *final(self)
                == *old(self),
            generation == old(self).load_generation ==> match result {
                Ok(page) => {
                    &&& applied is Shown
                    &&& final(self)@ == old(self)@.loaded(
                        history_action,
                        page.final_url@,
                        optional_text(page.title),
                        page.status,
                    )
                },
                Err(error) => {
                    &&& applied matches Applied::ErrorPage(html) && html@ == error_page_text(
                        requested_url@,
                        error@,
                    )
                    &&& final(self)@ == old(self)@.not_loaded(
                        history_action,
                        requested_url@,
                        error@,
                    )
                },
            },
    {
        if generation != self.load_generation {
            return Applied::Stale;
        }
        let applied = match result {
            Ok(page) => {
                let title = match page.title {
                    Some(title) => if trim(title.as_str()).as_str().is_empty() {
                        copy_of(page.final_url.as_str())
                    } else {
                        title
                    },
                    None => copy_of(page.final_url.as_str()),
                };
                self.history.commit(history_action, copy_of(page.final_url.as_str()));
                self.snapshot.url = page.final_url;
                self.snapshot.title = title;
                self.snapshot.load_state = if succeeded(page.status) {
                    LoadState::Ready
                } else {
                    let mut message = copy_of("HTTP ");
                    message.push_str(decimal(page.status).as_str());
                    LoadState::Failed(message)
                };
                Applied::Shown
            },
            Err(error) => {
                self.history.commit(history_action, copy_of(requested_url));
                let html = error_page(requested_url, error.as_str());
                self.snapshot.url = copy_of(requested_url);
                self.snapshot.title = copy_of(ERROR_TITLE);
                self.snapshot.load_state = LoadState::Failed(error);
                Applied::ErrorPage(html)
            },
        };
        self.update_history_flags();
        applied
    }

    /// Decide what is to be done about a message; `scripting` says whether
    /// pages run scripts, and `shown` which document is shown.
    pub fn handle_message(
        &mut self,
        scripting: bool,
        shown: Option<usize>,
        message: BackendMessage,
    ) -> (step: MessageStep)
        requires
            old(self).wf(),
            message.fits(),
        ensures
            final(self).wf(),
            final(self)@ == old(self)@.after_message(shown, message),
            step_matches(old(self)@, scripting, shown, message, step),
    {
        match message {
            BackendMessage::Navigate { source, replace, url } => {
                match self.follow_link(shown, source, replace, url) {
                    Some(step) => MessageStep::Start(step),
                    None => MessageStep::Ignore,
                }
            },
            BackendMessage::RootLoaded { generation, requested_url, history_action, result } => {
                match result {
                    Ok(response) => {
                        if generation != self.load_generation {
                            return MessageStep::Ignore;
                        }
                        let html = response.text();
                        let page = PendingPage {
                            generation,
                            requested_url,
                            history_action,
                            response,
                        };
                        if scripting {
                            MessageStep::Probe(page, html)
                        } else {
                            MessageStep::Build(page, html, Vec::new())
                        }
                    },
                    Err(error) => {
                        let applied = self.apply_root_response(
                            generation,
                            requested_url.as_str(),
                            history_action,
                            Err(error),
                        );
                        match applied {
                            Applied::ErrorPage(html) => MessageStep::ShowError(html),
                            _ => MessageStep::Ignore,
                        }
                    },
                }
            },
            BackendMessage::ScriptsLoaded { page, sources } => {
                if page.generation != self.load_generation {
                    return MessageStep::Ignore;
                }
                let html = page.response.text();
                MessageStep::Build(page, html, sources)
            },
        }
    }

    /// Take the title that the shown document has by now; says whether it is a
    /// new one.  A blank title is none.
    pub fn adopt_title(&mut self, title: Option<String>) -> (changed: bool)
        requires
            old(self).wf(),
        ensures
            final(self).wf(),
            changed == (old(self)@.title != old(self)@.retitled(optional_text(title)).title),
            final(self)@ == old(self)@.retitled(optional_text(title)),
    {
        match title {
            Some(title) => {
                if trim(title.as_str()).as_str().is_empty() || same_text(
                    self.snapshot.title.as_str(),
                    title.as_str(),
                ) {
                    return false;
                }
                self.snapshot.title = title;
                true
            },
            None => false,
        }
    }

    /// Browser state suitable for chrome and diagnostics, with the state of the
    /// focused control.
    pub fn snapshot(&self, text_input: Option<BrowserTextInput>) -> (result: BrowserSnapshot)
        ensures
            result == (BrowserSnapshot { text_input, ..self.snapshot }),
    {
        let mut snapshot = self.snapshot.clone();
        snapshot.text_input = text_input;
        snapshot
    }
}

impl BackendMessage {
    /// Whether what has arrived is small enough to be read as text.
    pub open spec fn fits(self) -> bool {
        match self {
            BackendMessage::Navigate { .. } => true,
            BackendMessage::RootLoaded { result, .. } => result matches Ok(response)
                ==> response.body@.len() <= MAX_TEXT_BYTES,
            BackendMessage::ScriptsLoaded { page, .. } => page.response.body@.len()
                <= MAX_TEXT_BYTES,
        }
    }
}

impl EngineState {
    /// Once the document shown has the given title.
    pub open spec fn retitled(self, title: Option<Seq<char>>) -> EngineState {
        EngineState { title: shown_title(title, self.title), ..self }
    }

    /// Once a message has been handled.
    pub open spec fn after_message(
        self,
        shown: Option<usize>,
        message: BackendMessage,
    ) -> EngineState {
        match message {
            BackendMessage::Navigate { source, replace, url } => self.maybe_requested(
                link_request(shown, source, replace, url@),
            ),
            BackendMessage::RootLoaded { generation, requested_url, history_action, result } => {
                match result {
                    Err(error) => if generation == self.generation {
                        self.not_loaded(history_action, requested_url@, error@)
                    } else {
                        self
                    },
                    Ok(_) => self,
                }
            },
            BackendMessage::ScriptsLoaded { .. } => self,
        }
    }
}

/// Whether `step` is what is to be done about a message.
pub open spec fn step_matches(
    state: EngineState,
    scripting: bool,
    shown: Option<usize>,
    message: BackendMessage,
    step: MessageStep,
) -> bool {
    match message {
        BackendMessage::Navigate { source, replace, url } => match state.maybe_step(
            link_request(shown, source, replace, url@),
        ) {
            Some(parts) => step matches MessageStep::Start(start) && start@ == parts,
            None => step is Ignore,
        },
        BackendMessage::RootLoaded { generation, requested_url, history_action, result } => {
            if generation != state.generation {
                step is Ignore
            } else {
                match result {
                    Ok(response) => {
                        let page = PendingPage {
                            generation,
                            requested_url,
                            history_action,
                            response,
                        };
                        if scripting {
                            step matches MessageStep::Probe(pending, html) && pending == page
                                && html@ == response_text(response@)
                        } else {
                            step matches MessageStep::Build(pending, html, sources) && pending
                                == page && html@ == response_text(response@) && sources@.len() == 0
                        }
                    },
                    Err(error) => step matches MessageStep::ShowError(html) && html@
                        == error_page_text(requested_url@, error@),
                }
            }
        },
        BackendMessage::ScriptsLoaded { page, sources } => if page.generation != state.generation {
            step is Ignore
        } else {
            step matches MessageStep::Build(pending, html, found) && pending == page && html@
                == response_text(page.response@) && found == sources
        },
    }
}

/// The scale to lay a page out at: the given one where it is a positive number,
/// and else one.
pub fn usable_scale(scale: Real32) -> (result: Real32)
    ensures
        result == if scale.magnitude() < crate::scalar::INFINITY_BITS && scale.rank() > 0 {
            scale
        } else {
            Real32 { bits: ONE_BITS }
        },
{
    if scale.is_finite() && scale.bits > 0 && scale.bits < crate::scalar::SIGN_BIT {
        scale
    } else {
        Real32 { bits: ONE_BITS }
    }
}

/// The bit pattern of the number one.
pub const ONE_BITS: u32 = 0x3f80_0000;

/// An answer to a load that is not the current one changes nothing.
pub proof fn obsolete_answers_change_nothing(
    state: EngineState,
    scripting: bool,
    shown: Option<usize>,
    message: BackendMessage,
    step: MessageStep,
)
    requires
        step_matches(state, scripting, shown, message, step),
        match message {
            BackendMessage::Navigate { .. } => false,
            BackendMessage::RootLoaded { generation, .. } => generation != state.generation,
            BackendMessage::ScriptsLoaded { page, .. } => page.generation != state.generation,
        },
    ensures
        state.after_message(shown, message) == state,
        step is Ignore,
{
}

/// A new navigation makes every answer to the ones before it obsolete, wherever
/// it leads, as long as the numbers do not run out.
pub proof fn navigations_outdate_earlier_loads(state: EngineState, location: Seq<char>)
    requires
        state.generation < u64::MAX,
    ensures
        state.navigated(location).generation > state.generation,
{
}

/// Once something else has been asked for, the answer to the load that was
/// under way changes nothing any more, whether the new address can be loaded or
/// not, and that load is stopped.
pub proof fn late_answers_change_nothing(
    state: EngineState,
    location: Seq<char>,
    scripting: bool,
    shown: Option<usize>,
    requested_url: String,
    history_action: HistoryAction,
    result: Result<FetchResponse, String>,
    step: MessageStep,
)
    requires
        step_matches(
            state.navigated(location),
            scripting,
            shown,
            (BackendMessage::RootLoaded {
                generation: state.generation,
                requested_url,
                history_action,
                result,
            }),
            step,
        ),
    ensures
        state.navigated(location).after_message(
            shown,
            (BackendMessage::RootLoaded {
                generation: state.generation,
                requested_url,
                history_action,
                result,
            }),
        ) == state.navigated(location),
        step is Ignore,
        state.navigation_step(location).abort == state.abortable,
{
}

/// An address that cannot be loaded leaves the history alone, and nothing is
/// requested for it.
pub proof fn bad_addresses_leave_the_history_alone(state: EngineState, location: Seq<char>)
    requires
        trimmed(location) != WELCOME_URL@,
        normalized(location) is Err,
    ensures
        state.navigated(location).history == state.history,
        state.navigated(location).can_go_back == state.can_go_back,
        state.navigated(location).can_go_forward == state.can_go_forward,
        state.navigation_step(location).request is None,
{
}

/// A page that is left behind cannot lead the user away.
pub proof fn only_the_shown_page_navigates(
    state: EngineState,
    document: usize,
    source: usize,
    replace: bool,
    url: Seq<char>,
)
    requires
        document != source,
    ensures
        state.maybe_requested(link_request(Some(document), source, replace, url)) == state,
        state.maybe_step(link_request(Some(document), source, replace, url)) is None,
{
}

/// A page that replaces the current one leaves no trace of it: going on from
/// there, the history is as long as before, and what could be gone back to
/// still can.
pub proof fn replacing_adds_no_history(
    state: EngineState,
    url: Seq<char>,
    title: Option<Seq<char>>,
    status: u16,
)
    requires
        state.history.place matches Some(place) && 0 <= place < state.history.entries.len(),
    ensures
        ({
            let after = state.loaded(HistoryAction::Reload, url, title, status);
            let place = state.history.place->0;
            &&& after.history.entries == state.history.entries.update(place, url)
            &&& after.history.place == state.history.place
            &&& after.can_go_back == state.history.has_previous()
            &&& after.can_go_forward == state.history.has_next()
        }),
{
}

/// A page that is loaded by a link or an address can be gone back from, if
/// there was one before it, and nothing is ahead of it.
pub proof fn loaded_pages_can_be_left_again(
    state: EngineState,
    url: Seq<char>,
    title: Option<Seq<char>>,
    status: u16,
)
    requires
        state.history.place matches Some(place) && 0 <= place < state.history.entries.len(),
    ensures
        ({
            let after = state.loaded(HistoryAction::Push, url, title, status);
            let place = state.history.place->0;
            &&& after.can_go_back
            &&& !after.can_go_forward
            &&& after.previous_entry() == Some((place, state.history.entries[place]))
        }),
{
}

/// Going forward asks for the entry directly after the current one, and going
/// back for the one directly before it, wherever in the history that is; there is
/// nothing to ask for at the end and at the beginning.
pub proof fn traversal_asks_for_the_neighbours(state: EngineState, place: int)
    requires
        state.history.place == Some(place),
        0 <= place < state.history.entries.len() <= usize::MAX,
    ensures
        place + 1 < state.history.entries.len() ==> match parsed_url(
            state.history.entries[place + 1],
        ) {
            Ok(page) => EngineState::traversal(state.next_entry()) == Some(
                (page.href, HistoryAction::Traverse((place + 1) as usize)),
            ),
            Err(_) => EngineState::traversal(state.next_entry()) is None,
        },
        place + 1 == state.history.entries.len() ==> EngineState::traversal(
            state.next_entry(),
        ) is None,
        place > 0 ==> match parsed_url(state.history.entries[place - 1]) {
            Ok(page) => EngineState::traversal(state.previous_entry()) == Some(
                (page.href, HistoryAction::Traverse((place - 1) as usize)),
            ),
            Err(_) => EngineState::traversal(state.previous_entry()) is None,
        },
        place == 0 ==> EngineState::traversal(state.previous_entry()) is None,
{
}

/// Without a current page there is nowhere to go back or forward to.
pub proof fn an_empty_history_leads_nowhere(state: EngineState)
    requires
        state.history.place is None,
    ensures
        EngineState::traversal(state.next_entry()) is None,
        EngineState::traversal(state.previous_entry()) is None,
        !state.with_history_flags().can_go_back,
        !state.with_history_flags().can_go_forward,
{
}

/// Once the page before has been loaded on the way back, going forward asks for
/// the page that was left, at its place, wherever in the history that is.
pub proof fn forward_undoes_back(
    state: EngineState,
    place: int,
    url: Seq<char>,
    title: Option<Seq<char>>,
    status: u16,
)
    requires
        state.history.place == Some(place),
        0 < place < state.history.entries.len() <= usize::MAX,
    ensures
        ({
            let back = state.loaded(
                HistoryAction::Traverse((place - 1) as usize),
                url,
                title,
                status,
            );
            &&& back.next_entry() == Some((place, state.history.entries[place]))
            &&& back.can_go_forward
            &&& back.can_go_back <==> place > 1
        }),
{
}

/// A page is requested under its own URL and for its own purpose, with the number
/// of a new load; until it arrives, the browser shows its URL as loading, and the
/// title and the history stay as they were.
pub proof fn requests_are_shown_as_loading(
    state: EngineState,
    url: Seq<char>,
    action: HistoryAction,
)
    ensures
        state.request_step(url, action).request matches Some(request) && request.url == url
            && request.history_action == action && request.generation == state.requested(
            url,
        ).generation,
        state.request_step(url, action).show is None,
        state.request_step(url, action).abort == state.abortable,
        state.requested(url).generation != state.generation,
        state.requested(url).url == url,
        state.requested(url).load is Loading,
        state.requested(url).abortable,
        state.requested(url).title == state.title,
        state.requested(url).history == state.history,
        state.requested(url).input == state.input,
{
}

/// Every load has another number than the one before it, and one more as long as
/// the numbers last.
pub proof fn loads_are_numbered(generation: u64)
    ensures
        next_generation(generation) != generation,
        generation < u64::MAX ==> next_generation(generation) == generation + 1,
        generation == u64::MAX ==> next_generation(generation) == 0,
{
}

/// A user who asks for the browser's own page is shown it at once, and nothing is
/// requested; one who asks for an address that comes to a page has that page
/// requested as a new one; and one who asks for any other is shown why it cannot
/// be loaded.
pub proof fn navigations_go_where_they_are_asked_to(state: EngineState, location: Seq<char>)
    ensures
        ({
            let step = state.navigation_step(location);
            let after = state.navigated(location);
            if trimmed(location) == "about:myrica"@ {
                &&& step.show == Some(WELCOME_HTML@)
                &&& step.request is None
                &&& after.url == "about:myrica"@
                &&& after.title == "Myrica"@
                &&& after.load is Ready
                &&& after.history == state.history
            } else {
                match normalized(location) {
                    Ok(page) => {
                        &&& step.show is None
                        &&& step.request matches Some(request) && request.url == page.href
                            && request.history_action == HistoryAction::Push && request.generation
                            == after.generation
                        &&& after.url == page.href
                        &&& after.load is Loading
                        &&& after.title == state.title
                    },
                    Err(error) => {
                        &&& step.show == Some(error_page_text(location, error))
                        &&& step.request is None
                        &&& after.url == location
                        &&& after.title == "Could not load page"@
                        &&& after.load == LoadParts::Failed(error)
                    },
                }
            }
        }),
{
}

/// Reloading asks for the page that is shown, in its place in the history, if it
/// is one of the web; any other page is not reloaded.
pub proof fn reloading_asks_for_the_same_page(state: EngineState)
    ensures
        match parsed_url(state.url) {
            Ok(page) => state.reload_request() == if page.scheme == "http"@ || page.scheme
                == "https"@ {
                Some((page.href, HistoryAction::Reload))
            } else {
                None
            },
            Err(_) => state.reload_request() is None,
        },
{
}

/// A page that is shown may lead to any URL: as a new page, or in its own place
/// if it says so.  While no page is shown, whichever asks is followed.
pub proof fn shown_pages_are_followed(shown: Option<usize>, source: usize, url: Seq<char>)
    ensures
        shown is None || shown == Some(source) ==> {
            &&& link_request(shown, source, false, url) == Some((url, HistoryAction::Push))
            &&& link_request(shown, source, true, url) == Some((url, HistoryAction::Reload))
        },
        shown is Some && shown != Some(source) ==> link_request(shown, source, false, url) is None
            && link_request(shown, source, true, url) is None,
{
}

/// What is requested is what there is a step for: something is done exactly where
/// something is requested, and otherwise the state is as it was.
pub proof fn nothing_is_done_without_a_request(
    state: EngineState,
    url: Seq<char>,
    action: HistoryAction,
)
    ensures
        state.maybe_step(None) is None,
        state.maybe_requested(None) == state,
        state.maybe_step(Some((url, action))) == Some(state.request_step(url, action)),
        state.maybe_requested(Some((url, action))) == state.requested(url),
{
}

/// A page that arrived is shown under its own URL.  It has its own title, or its
/// URL for one where its title is blank or missing; and it is ready, or has failed
/// with its status.
pub proof fn loaded_pages_are_shown_as_they_are(
    state: EngineState,
    action: HistoryAction,
    url: Seq<char>,
    title: Option<Seq<char>>,
    status: u16,
)
    ensures
        ({
            let after = state.loaded(action, url, title, status);
            &&& after.url == url
            &&& title matches Some(text) ==> trimmed(text).len() > 0 ==> after.title == text
            &&& title matches Some(text) ==> trimmed(text).len() == 0 ==> after.title == url
            &&& title is None ==> after.title == url
            &&& 200 <= status < 400 ==> after.load is Ready
            &&& !(200 <= status < 400) ==> after.load == LoadParts::Failed(
                "HTTP "@ + decimal_digits(status as nat),
            )
            &&& after.history == state.history.after(action, url)
            &&& after.can_go_back == after.history.has_previous()
            &&& after.can_go_forward == after.history.has_next()
            &&& after.generation == state.generation
            &&& after.abortable == state.abortable
            &&& after.input == state.input
        }),
{
}

/// A page that did not arrive is entered in the history all the same, under the
/// URL that was asked for, and the browser says why it failed.
pub proof fn failed_pages_say_why(
    state: EngineState,
    action: HistoryAction,
    url: Seq<char>,
    error: Seq<char>,
)
    ensures
        ({
            let after = state.not_loaded(action, url, error);
            &&& after.url == url
            &&& after.title == "Could not load page"@
            &&& after.load == LoadParts::Failed(error)
            &&& after.history == state.history.after(action, url)
            &&& after.can_go_back == after.history.has_previous()
            &&& after.can_go_forward == after.history.has_next()
            &&& after.generation == state.generation
            &&& after.abortable == state.abortable
            &&& after.input == state.input
        }),
{
}

/// The answer to the current load is used: the page is built of its text, once
/// its scripts have been looked for where pages run scripts; and a failure is
/// shown as one.
pub proof fn current_answers_are_used(
    state: EngineState,
    scripting: bool,
    shown: Option<usize>,
    requested_url: String,
    history_action: HistoryAction,
    result: Result<FetchResponse, String>,
    step: MessageStep,
)
    requires
        step_matches(
            state,
            scripting,
            shown,
            (BackendMessage::RootLoaded {
                generation: state.generation,
                requested_url,
                history_action,
                result,
            }),
            step,
        ),
    ensures
        match result {
            Ok(response) => {
                &&& scripting ==> (step matches MessageStep::Probe(page, html) && html@
                    == response_text(response@) && page.response == response && page.generation
                    == state.generation && page.requested_url == requested_url
                    && page.history_action == history_action)
                &&& !scripting ==> (step matches MessageStep::Build(page, html, sources) && html@
                    == response_text(response@) && sources@.len() == 0 && page.response == response
                    && page.generation == state.generation && page.requested_url == requested_url
                    && page.history_action == history_action)
                &&& state.after_message(
                    shown,
                    (BackendMessage::RootLoaded {
                        generation: state.generation,
                        requested_url,
                        history_action,
                        result,
                    }),
                ) == state
            },
            Err(error) => {
                &&& step matches MessageStep::ShowError(html) && html@ == error_page_text(
                    requested_url@,
                    error@,
                )
                &&& state.after_message(
                    shown,
                    (BackendMessage::RootLoaded {
                        generation: state.generation,
                        requested_url,
                        history_action,
                        result,
                    }),
                ) == state.not_loaded(history_action, requested_url@, error@)
            },
        },
{
}

/// Once the scripts of the current page have arrived, the page is built of its
/// text with exactly those scripts.
pub proof fn pages_are_built_with_their_scripts(
    state: EngineState,
    scripting: bool,
    shown: Option<usize>,
    page: PendingPage,
    sources: Vec<ScriptSource>,
    step: MessageStep,
)
    requires
        page.generation == state.generation,
        step_matches(
            state,
            scripting,
            shown,
            (BackendMessage::ScriptsLoaded { page, sources }),
            step,
        ),
    ensures
        step matches MessageStep::Build(built, html, found) && built == page && html@
            == response_text(page.response@) && found == sources,
        state.after_message(shown, (BackendMessage::ScriptsLoaded { page, sources })) == state,
{
}

/// What the shown page asks for is requested, as a new page or in its own place.
pub proof fn links_are_requested(
    state: EngineState,
    scripting: bool,
    document: usize,
    replace: bool,
    url: String,
    step: MessageStep,
)
    requires
        step_matches(
            state,
            scripting,
            Some(document),
            (BackendMessage::Navigate { source: document, replace, url }),
            step,
        ),
    ensures
        step matches MessageStep::Start(start) && (start@.request matches Some(request)
            && request.url == url@ && request.history_action == if replace {
            HistoryAction::Reload
        } else {
            HistoryAction::Push
        }),
        state.after_message(
            Some(document),
            (BackendMessage::Navigate { source: document, replace, url }),
        ) == state.requested(url@),
{
}

/// A document that has a title by now is shown under it; one without, or with a
/// blank one, is shown under the title that it had.
pub proof fn titles_are_taken_unless_blank(state: EngineState, title: Option<Seq<char>>)
    ensures
        title matches Some(text) ==> trimmed(text).len() > 0 ==> state.retitled(title).title == text,
        title matches Some(text) ==> trimmed(text).len() == 0 ==> state.retitled(title).title
            == state.title,
        title is None ==> state.retitled(title).title == state.title,
        state.retitled(title) == (EngineState { title: state.retitled(title).title, ..state }),
{
}

/// The browser begins with its own page, with nothing loaded and nothing visited.
pub proof fn the_browser_begins_idle()
    ensures
        ({
            let start = EngineState::initial();
            &&& start.url == "about:myrica"@
            &&& start.title == "Myrica"@
            &&& start.load is Idle
            &&& start.history.entries.len() == 0
            &&& start.history.place is None
            &&& !start.can_go_back
            &&& !start.can_go_forward
            &&& !start.abortable
        }),
{
}

/// Whatever an address came to, the page is requested as a new one if there is
/// one, and else the reason is shown under the address as it was given.
pub proof fn addresses_are_answered_by_their_outcome(
    state: EngineState,
    location: Seq<char>,
    outcome: Result<UrlParts, Seq<char>>,
)
    ensures
        match outcome {
            Ok(page) => {
                &&& state.answer_step(location, outcome).request matches Some(request)
                    && request.url == page.href && request.history_action == HistoryAction::Push
                &&& state.answer_step(location, outcome).show is None
                &&& state.answered(location, outcome).url == page.href
                &&& state.answered(location, outcome).load is Loading
            },
            Err(error) => {
                &&& state.answer_step(location, outcome).request is None
                &&& state.answer_step(location, outcome).show == Some(
                    error_page_text(location, error),
                )
                &&& state.answered(location, outcome).url == location
                &&& state.answered(location, outcome).load == LoadParts::Failed(error)
            },
        },
        state.answered(location, outcome).generation != state.generation,
        state.answered(location, outcome).history == state.history,
        state.answer_step(location, outcome).abort == state.abortable,
{
}

/// Whatever URL a page has, reloading asks for that URL in the place of the page,
/// and only where it is one of the web.
pub proof fn reloads_keep_the_place(outcome: Result<UrlParts, Seq<char>>)
    ensures
        reload_target(outcome) is Some <==> (outcome matches Ok(page) && (page.scheme == "http"@
            || page.scheme == "https"@)),
        reload_target(outcome) matches Some((url, action)) ==> url == outcome->Ok_0.href && action
            == HistoryAction::Reload,
{
}

} // verus!
