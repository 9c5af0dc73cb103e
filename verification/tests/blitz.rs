use myrica::backend::blitz::{
    usable_scale, Applied, BackendMessage, BlitzBackend, LoadedPage, MessageStep, NavigationStep,
    PageRequest,
};
use myrica::backend::history::HistoryAction;
use myrica::backend::prefetch::{PendingPage, ScriptSource};
use myrica::backend::{BackendError, BrowserTextInput, LoadState};
use myrica::location::PageUrl;
use myrica::markup::{error_page, WELCOME_HTML};
use myrica::network::FetchResponse;
use myrica::scalar::Real32;

fn request(url: &str, generation: u64, history_action: HistoryAction) -> Option<PageRequest> {
    Some(PageRequest { url: String::from(url), generation, history_action })
}

fn load(backend: &mut BlitzBackend, url: &str, action: HistoryAction) -> Applied {
    let page = LoadedPage {
        final_url: String::from(url),
        status: 200,
        title: Some(format!("Page {url}")),
    };
    backend.apply_root_response(backend.load_generation, url, action, Ok(page))
}

fn response(url: &str, html: &str) -> FetchResponse {
    FetchResponse {
        final_url: String::from(url),
        status: 200,
        body: html.as_bytes().to_vec(),
        content_type: None,
    }
}

#[test]
fn the_browser_begins_with_its_own_page() {
    let (backend, html) = BlitzBackend::new();
    assert_eq!(html, WELCOME_HTML);
    let snapshot = backend.snapshot(None);
    assert_eq!(snapshot.backend_name, "Blitz");
    assert_eq!(snapshot.url, "about:myrica");
    assert_eq!(snapshot.title, "Myrica");
    assert_eq!(snapshot.load_state, LoadState::Idle);
}

#[test]
fn an_address_is_requested() {
    let (mut backend, _) = BlitzBackend::new();
    let (step, result) = backend.navigate("example.com");
    assert!(result.is_ok());
    assert_eq!(
        step,
        NavigationStep {
            abort: false,
            show: None,
            request: request("https://example.com/", 1, HistoryAction::Push),
        }
    );
    assert_eq!(backend.snapshot.url, "https://example.com/");
    assert_eq!(backend.snapshot.load_state, LoadState::Loading);
    let (step, _) = backend.navigate("other.test");
    assert!(step.abort);
    assert_eq!(step.request, request("https://other.test/", 2, HistoryAction::Push));
}

#[test]
fn a_bad_address_shows_an_error_page() {
    let (mut backend, _) = BlitzBackend::new();
    let (step, result) = backend.navigate(" ftp://x ");
    assert_eq!(result.unwrap_err().message(), "unsupported URL scheme: ftp");
    assert_eq!(step.request, None);
    assert_eq!(step.show, Some(error_page(" ftp://x ", "unsupported URL scheme: ftp")));
    assert_eq!(backend.snapshot.url, " ftp://x ");
    assert_eq!(backend.snapshot.title, "Could not load page");
    assert_eq!(backend.load_generation, 1);
    assert!(!step.abort);
}

#[test]
fn addresses_are_answered_by_what_they_came_to() {
    let (mut backend, _) = BlitzBackend::new();
    let page = PageUrl::parse("http://a.test").unwrap();
    let (step, result) = backend.answer_address("anything", Ok(page));
    assert!(result.is_ok());
    assert_eq!(step.request, request("http://a.test/", 1, HistoryAction::Push));
    let (step, result) = backend.answer_address("odd", Err(BackendError::new("no")));
    assert_eq!(result, Err(BackendError::new("no")));
    assert_eq!(step.show, Some(error_page("odd", "no")));
    assert!(step.abort);
    assert!(!backend.abortable);
    assert_eq!(backend.load_generation, 2);
}

#[test]
fn an_answer_after_a_refused_address_comes_too_late() {
    let (mut backend, _) = BlitzBackend::new();
    backend.navigate("http://a.test/");
    let (step, result) = backend.navigate("file:///x");
    assert_eq!(result, Err(BackendError::new("unsupported URL scheme: file")));
    assert!(step.abort);
    let late = BackendMessage::RootLoaded {
        generation: 1,
        requested_url: String::from("http://a.test/"),
        history_action: HistoryAction::Push,
        result: Ok(response("http://a.test/", "<title>Late</title>")),
    };
    assert!(matches!(backend.handle_message(false, None, late), MessageStep::Ignore));
    let page = LoadedPage {
        final_url: String::from("http://a.test/"),
        status: 200,
        title: Some(String::from("Late")),
    };
    assert_eq!(
        backend.apply_root_response(1, "http://a.test/", HistoryAction::Push, Ok(page)),
        Applied::Stale
    );
    let snapshot = backend.snapshot(None);
    assert_eq!(snapshot.url, "file:///x");
    assert_eq!(snapshot.title, "Could not load page");
    assert_eq!(
        snapshot.load_state,
        LoadState::Failed(String::from("unsupported URL scheme: file"))
    );
    assert!(!snapshot.can_go_back);
    assert!(!snapshot.can_go_forward);
    assert_eq!(backend.go_back(), None);
}

#[test]
fn only_web_pages_are_reloaded() {
    let (mut backend, _) = BlitzBackend::new();
    assert_eq!(backend.reload_page(PageUrl::parse("about:myrica")), None);
    assert_eq!(backend.reload_page(Err(String::from("odd"))), None);
    let step = backend.reload_page(PageUrl::parse("https://a.test/x")).unwrap();
    assert_eq!(step.request, request("https://a.test/x", 1, HistoryAction::Reload));
}

#[test]
fn the_browser_s_own_page_can_be_asked_for() {
    let (mut backend, _) = BlitzBackend::new();
    backend.navigate("example.com");
    let (step, result) = backend.navigate(" about:myrica\n");
    assert!(result.is_ok());
    assert_eq!(
        step,
        NavigationStep { abort: true, show: Some(String::from(WELCOME_HTML)), request: None }
    );
    assert_eq!(backend.snapshot.load_state, LoadState::Ready);
    assert_eq!(backend.load_generation, 2);
    assert!(!backend.abortable);
    assert_eq!(backend.reload(), None);
}

#[test]
fn loaded_pages_enter_the_history() {
    let (mut backend, _) = BlitzBackend::new();
    backend.navigate("a.test");
    assert_eq!(load(&mut backend, "https://a.test/", HistoryAction::Push), Applied::Shown);
    assert_eq!(backend.snapshot.title, "Page https://a.test/");
    assert_eq!(backend.snapshot.load_state, LoadState::Ready);
    backend.navigate("b.test");
    load(&mut backend, "https://b.test/", HistoryAction::Push);
    assert!(backend.snapshot.can_go_back);
    assert!(!backend.snapshot.can_go_forward);
    let back = backend.go_back().unwrap();
    assert_eq!(back.request, request("https://a.test/", 3, HistoryAction::Traverse(0)));
    load(&mut backend, "https://a.test/", HistoryAction::Traverse(0));
    assert!(!backend.snapshot.can_go_back);
    assert!(backend.snapshot.can_go_forward);
    assert_eq!(backend.go_back(), None);
    let forward = backend.go_forward().unwrap();
    assert_eq!(forward.request, request("https://b.test/", 4, HistoryAction::Traverse(1)));
    load(&mut backend, "https://b.test/", HistoryAction::Traverse(1));
    assert_eq!(backend.go_forward(), None);
    let reload = backend.reload().unwrap();
    assert_eq!(reload.request, request("https://b.test/", 5, HistoryAction::Reload));
}

#[test]
fn replaced_pages_leave_the_history() {
    let (mut backend, _) = BlitzBackend::new();
    backend.navigate("http://a.test/check");
    load(&mut backend, "http://a.test/check", HistoryAction::Push);
    let step = backend
        .follow_link(Some(7), 7, true, String::from("http://a.test/verified"))
        .unwrap();
    assert_eq!(step.request.unwrap().history_action, HistoryAction::Reload);
    load(&mut backend, "http://a.test/verified", HistoryAction::Reload);
    assert_eq!(backend.history.entries, ["http://a.test/verified"]);
}

#[test]
fn only_the_page_that_is_shown_is_followed() {
    let (mut backend, _) = BlitzBackend::new();
    assert_eq!(backend.follow_link(Some(1), 2, false, String::from("x")), None);
    assert_eq!(backend.load_generation, 0);
    assert!(backend.follow_link(None, 2, false, String::from("x")).is_some());
    assert!(backend.follow_link(Some(2), 2, false, String::from("x")).is_some());
}

#[test]
fn late_answers_are_dropped() {
    let (mut backend, _) = BlitzBackend::new();
    backend.navigate("a.test");
    backend.navigate("b.test");
    let late = backend.apply_root_response(
        1,
        "https://a.test/",
        HistoryAction::Push,
        Err(String::from("timeout")),
    );
    assert_eq!(late, Applied::Stale);
    assert_eq!(backend.snapshot.url, "https://b.test/");
    assert_eq!(backend.history.entries.len(), 0);
}

#[test]
fn failures_and_bad_statuses_are_shown() {
    let (mut backend, _) = BlitzBackend::new();
    backend.navigate("a.test");
    let applied = backend.apply_root_response(
        1,
        "https://a.test/",
        HistoryAction::Push,
        Err(String::from("timeout")),
    );
    assert_eq!(applied, Applied::ErrorPage(error_page("https://a.test/", "timeout")));
    assert_eq!(backend.snapshot.load_state, LoadState::Failed(String::from("timeout")));
    assert_eq!(backend.history.entries, ["https://a.test/"]);
    backend.navigate("b.test");
    let page = LoadedPage {
        final_url: String::from("https://b.test/"),
        status: 404,
        title: Some(String::from(" \n")),
    };
    backend.apply_root_response(2, "https://b.test/", HistoryAction::Push, Ok(page));
    assert_eq!(backend.snapshot.load_state, LoadState::Failed(String::from("HTTP 404")));
    assert_eq!(backend.snapshot.title, "https://b.test/");
}

#[test]
fn messages_are_turned_into_steps() {
    let (mut backend, _) = BlitzBackend::new();
    backend.navigate("a.test");
    let arrived = |generation| BackendMessage::RootLoaded {
        generation,
        requested_url: String::from("https://a.test/"),
        history_action: HistoryAction::Push,
        result: Ok(response("https://a.test/", "<p>é")),
    };
    let ignored = backend.handle_message(true, None, arrived(0));
    assert!(matches!(ignored, MessageStep::Ignore));
    assert!(!ignored.changes_page());
    assert!(matches!(
        backend.handle_message(true, None, arrived(1)),
        MessageStep::Probe(page, html) if html == "<p>é" && page.generation == 1
    ));
    assert!(matches!(
        backend.handle_message(false, None, arrived(1)),
        MessageStep::Build(_, html, sources) if html == "<p>é" && sources.is_empty()
    ));
    let scripts = |generation| BackendMessage::ScriptsLoaded {
        page: PendingPage {
            generation,
            requested_url: String::from("https://a.test/"),
            history_action: HistoryAction::Push,
            response: response("https://a.test/", "x"),
        },
        sources: vec![ScriptSource { url: String::from("u"), text: String::from("t") }],
    };
    assert!(matches!(backend.handle_message(true, None, scripts(0)), MessageStep::Ignore));
    assert!(matches!(
        backend.handle_message(true, None, scripts(1)),
        MessageStep::Build(_, html, sources) if html == "x" && sources.len() == 1
    ));
    let failed = BackendMessage::RootLoaded {
        generation: 1,
        requested_url: String::from("https://a.test/"),
        history_action: HistoryAction::Push,
        result: Err(String::from("gone")),
    };
    assert!(matches!(
        backend.handle_message(true, None, failed),
        MessageStep::ShowError(html) if html == error_page("https://a.test/", "gone")
    ));
    let link = |source| BackendMessage::Navigate {
        source,
        replace: false,
        url: String::from("https://c.test/"),
    };
    assert!(matches!(backend.handle_message(true, Some(1), link(2)), MessageStep::Ignore));
    let started = backend.handle_message(true, Some(1), link(1));
    assert!(started.changes_page());
    assert!(matches!(started, MessageStep::Start(step) if step.request.is_some()));
}

#[test]
fn titles_follow_the_document() {
    let (mut backend, _) = BlitzBackend::new();
    assert!(!backend.adopt_title(None));
    assert!(!backend.adopt_title(Some(String::from("  "))));
    assert!(!backend.adopt_title(Some(String::from("Myrica"))));
    assert!(backend.adopt_title(Some(String::from("timer-ready"))));
    assert_eq!(backend.snapshot.title, "timer-ready");
}

#[test]
fn snapshots_carry_the_focused_control() {
    let (backend, _) = BlitzBackend::new();
    let input = BrowserTextInput {
        cursor_rect: [Real32::from_bits(0); 4],
        surrounding_text: String::from("ab"),
        cursor_byte: 1,
        anchor_byte: 1,
    };
    assert_eq!(backend.snapshot(Some(input.clone())).text_input, Some(input));
    assert_eq!(backend.snapshot(None).text_input, None);
}

#[test]
fn unusable_scales_are_replaced() {
    let scaled = |value: f32| {
        f32::from_bits(usable_scale(Real32::from_bits(value.to_bits())).bits)
    };
    assert_eq!(scaled(2.5), 2.5);
    assert_eq!(scaled(0.0), 1.0);
    assert_eq!(scaled(-0.0), 1.0);
    assert_eq!(scaled(-2.0), 1.0);
    assert_eq!(scaled(f32::INFINITY), 1.0);
    assert_eq!(scaled(f32::NAN), 1.0);
    assert_eq!(scaled(f32::MIN_POSITIVE), f32::MIN_POSITIVE);
}
