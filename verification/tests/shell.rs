use myrica::backend::{
    BrowserInput, BrowserKey, BrowserModifiers, BrowserMouseButton, BrowserSnapshot,
    BrowserTextInput, LoadState, WheelDelta,
};
use myrica::scalar::{Real32, Real64};
use myrica::shell::{
    dispatch_webview_event, map_key, status_text, window_title, Chrome, Dispatch, ShellButton,
    ShellEvent, ShellKey, ShellModifiers,
};

fn number(value: f32) -> Real32 {
    Real32::from_bits(value.to_bits())
}

fn snapshot(url: &str, title: &str) -> BrowserSnapshot {
    BrowserSnapshot {
        backend_name: "test",
        url: String::from(url),
        title: String::from(title),
        load_state: LoadState::Ready,
        can_go_back: false,
        can_go_forward: false,
        text_input: None,
    }
}

#[test]
fn the_window_is_titled_after_the_page() {
    assert_eq!(window_title(&snapshot("", "")), "Myrica");
    assert_eq!(window_title(&snapshot("", "News")), "News — Myrica");
}

#[test]
fn the_status_bar_shows_state_and_url() {
    assert_eq!(status_text(&snapshot("http://a.test/", "")), "Ready · http://a.test/");
}

#[test]
fn events_become_inputs() {
    let (x, y) = (number(1.0), number(2.0));
    let modifiers = ShellModifiers { shift: true, control: false, alt: true, super_key: false };
    let seen = BrowserModifiers { shift: true, control: false, alt: true, super_key: false };
    for (event, input) in [
        (ShellEvent::MouseMoved { x, y }, BrowserInput::PointerMoved { x, y }),
        (ShellEvent::MouseEntered { x, y }, BrowserInput::PointerMoved { x, y }),
        (ShellEvent::MouseExited, BrowserInput::PointerExited),
        (
            ShellEvent::ButtonPressed { button: ShellButton::Left, x, y },
            BrowserInput::PointerButton { button: BrowserMouseButton::Primary, pressed: true, x, y },
        ),
        (
            ShellEvent::ButtonReleased { button: ShellButton::Middle, x, y },
            BrowserInput::PointerButton {
                button: BrowserMouseButton::Auxiliary,
                pressed: false,
                x,
                y,
            },
        ),
        (
            ShellEvent::ButtonCancelled { button: ShellButton::Right, x, y },
            BrowserInput::PointerButton {
                button: BrowserMouseButton::Secondary,
                pressed: false,
                x,
                y,
            },
        ),
        (
            ShellEvent::Wheel {
                delta_x: Real64 { bits: 1 },
                delta_y: Real64 { bits: 2 },
                x,
                y,
            },
            BrowserInput::Wheel {
                deltas: vec![WheelDelta {
                    delta_x: Real64 { bits: 1 },
                    delta_y: Real64 { bits: 2 },
                }],
                x,
                y,
            },
        ),
        (
            ShellEvent::KeyPressed { key: ShellKey::Home, modifiers },
            BrowserInput::Key { key: BrowserKey::Home, pressed: true, modifiers: seen },
        ),
        (
            ShellEvent::KeyReleased { key: ShellKey::F(5), modifiers },
            BrowserInput::Key { key: BrowserKey::Unknown, pressed: false, modifiers: seen },
        ),
        (ShellEvent::Char('é'), BrowserInput::Text('é')),
        (
            ShellEvent::Preedit { text: "か".into(), cursor_byte: 3, anchor_byte: 0 },
            BrowserInput::ImePreedit { text: "か".into(), cursor: 3, anchor: 0 },
        ),
        (ShellEvent::Commit("火".into()), BrowserInput::ImeCommit("火".into())),
    ] {
        assert_eq!(dispatch_webview_event(event), Dispatch::Send(input));
    }
    assert_eq!(dispatch_webview_event(ShellEvent::TextInputDone), Dispatch::Consumed);
    assert_eq!(dispatch_webview_event(ShellEvent::Other), Dispatch::Ignored);
}

#[test]
fn keys_are_mapped() {
    for (key, mapped) in [
        (ShellKey::Escape, BrowserKey::Escape),
        (ShellKey::Enter, BrowserKey::Enter),
        (ShellKey::Tab, BrowserKey::Tab),
        (ShellKey::Backspace, BrowserKey::Backspace),
        (ShellKey::Space, BrowserKey::Space),
        (ShellKey::Left, BrowserKey::Left),
        (ShellKey::Right, BrowserKey::Right),
        (ShellKey::Up, BrowserKey::Up),
        (ShellKey::Down, BrowserKey::Down),
        (ShellKey::End, BrowserKey::End),
        (ShellKey::PageUp, BrowserKey::PageUp),
        (ShellKey::PageDown, BrowserKey::PageDown),
        (ShellKey::Insert, BrowserKey::Insert),
        (ShellKey::Delete, BrowserKey::Delete),
        (ShellKey::Char('q'), BrowserKey::Character('q')),
        (ShellKey::Unknown, BrowserKey::Unknown),
    ] {
        assert_eq!(map_key(key), mapped);
    }
}

#[test]
fn the_chrome_changes_only_what_changed() {
    let mut chrome = Chrome::new(snapshot("a", "A"));
    let same = chrome.synchronize(snapshot("a", "A"));
    assert_eq!((same.text_input, same.snapshot, same.address), (None, false, None));
    let titled = chrome.synchronize(snapshot("a", "B"));
    assert_eq!((titled.snapshot, titled.address), (true, None));
    let moved = chrome.synchronize(snapshot("b", "B"));
    assert_eq!((moved.snapshot, moved.address), (true, Some(String::from("b"))));
    let input = BrowserTextInput {
        cursor_rect: [number(0.5); 4],
        surrounding_text: String::from("x"),
        cursor_byte: 0,
        anchor_byte: 1,
    };
    let focused = chrome
        .synchronize(BrowserSnapshot { text_input: Some(input.clone()), ..snapshot("b", "B") });
    assert_eq!(focused.text_input, Some(Some(input)));
    let blurred = chrome.synchronize(snapshot("b", "B"));
    assert_eq!(blurred.text_input, Some(None));
}

#[test]
fn losing_the_focus_is_told_once() {
    let mut chrome = Chrome::new(snapshot("a", "A"));
    assert!(!chrome.focus(false));
    assert!(!chrome.focus(true));
    assert!(chrome.focus(false));
    assert!(!chrome.focus(false));
}
