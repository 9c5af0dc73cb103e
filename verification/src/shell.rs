//! The browser's chrome: what its window shows, and what the events in the web
//! view mean to the engine.

use crate::backend::{
    same_text_inputs, text_inputs_agree, BrowserInput, BrowserKey, BrowserModifiers,
    BrowserMouseButton, BrowserSnapshot, BrowserTextInput, WheelDelta,
};
use crate::scalar::{Real32, Real64};
use crate::text::{copy_of, same_text};
use vstd::prelude::*;

verus! {

/// The name in the title of the window.
pub const WINDOW_NAME: &'static str = "Myrica";

/// The title of the window that shows a page with the given title.
pub open spec fn titled(title: Seq<char>) -> Seq<char> {
    if title.len() == 0 {
        WINDOW_NAME@
    } else {
        title + " — Myrica"@
    }
}

/// The title of the window.
pub fn window_title(snapshot: &BrowserSnapshot) -> (result: String)
    ensures
        result@ == titled(snapshot.title@),
{
    if snapshot.title.as_str().is_empty() {
        return copy_of(WINDOW_NAME);
    }
    let mut result = copy_of(snapshot.title.as_str());
    result.push_str(" — Myrica");
    result
}

/// The text of the status bar.
pub fn status_text(snapshot: &BrowserSnapshot) -> (result: String)
    ensures
        result@ == snapshot.load_state.label_text() + " · "@ + snapshot.url@,
{
    let mut result = snapshot.load_state.label();
    result.push_str(" · ");
    result.push_str(snapshot.url.as_str());
    result
}

/// A mouse button of the window system.
#[derive(Clone, Copy, Debug, PartialEq, Eq, Structural)]
pub enum ShellButton {
    Left,
    Middle,
    Right,
}

/// A key of the window system.
#[derive(Clone, Copy, Debug, PartialEq, Eq, Structural)]
pub enum ShellKey {
    Escape,
    Enter,
    Tab,
    Backspace,
    Space,
    Left,
    Right,
    Up,
    Down,
    Home,
    End,
    PageUp,
    PageDown,
    Insert,
    Delete,
    Char(char),
    /// A function key, by its number.
    F(u8),
    Unknown,
}

/// The modifiers of the window system.
#[derive(Clone, Copy, Debug, PartialEq, Eq, Structural)]
pub struct ShellModifiers {
    pub shift: bool,
    pub control: bool,
    pub alt: bool,
    pub super_key: bool,
}

/// What the window system tells the web view.
#[derive(Debug, PartialEq)]
pub enum ShellEvent {
    MouseMoved { x: Real32, y: Real32 },
    MouseEntered { x: Real32, y: Real32 },
    MouseExited,
    ButtonPressed { button: ShellButton, x: Real32, y: Real32 },
    ButtonReleased { button: ShellButton, x: Real32, y: Real32 },
    /// A button press was taken back, as when the window loses the pointer.
    ButtonCancelled { button: ShellButton, x: Real32, y: Real32 },
    Wheel { delta_x: Real64, delta_y: Real64, x: Real32, y: Real32 },
    KeyPressed { key: ShellKey, modifiers: ShellModifiers },
    KeyReleased { key: ShellKey, modifiers: ShellModifiers },
    Char(char),
    Preedit { text: String, cursor_byte: u32, anchor_byte: u32 },
    Commit(String),
    /// An input method has finished a batch of changes.
    TextInputDone,
    Other,
}

/// What becomes of an event.
#[derive(Debug, PartialEq)]
pub enum Dispatch {
    /// It is an input to the engine.
    Send(BrowserInput),
    /// It is none, but it has been dealt with.
    Consumed,
    /// It is nothing to the web view.
    Ignored,
}

/// The button that the engine knows.
pub open spec fn engine_button(button: ShellButton) -> BrowserMouseButton {
    match button {
        ShellButton::Left => BrowserMouseButton::Primary,
        ShellButton::Middle => BrowserMouseButton::Auxiliary,
        ShellButton::Right => BrowserMouseButton::Secondary,
    }
}

/// The button that the engine knows.
pub fn map_mouse_button(button: ShellButton) -> (result: BrowserMouseButton)
    ensures
        result == engine_button(button),
{
    match button {
        ShellButton::Left => BrowserMouseButton::Primary,
        ShellButton::Middle => BrowserMouseButton::Auxiliary,
        ShellButton::Right => BrowserMouseButton::Secondary,
    }
}

/// The modifiers that the engine knows.
pub open spec fn engine_modifiers(modifiers: ShellModifiers) -> BrowserModifiers {
    BrowserModifiers {
        shift: modifiers.shift,
        control: modifiers.control,
        alt: modifiers.alt,
        super_key: modifiers.super_key,
    }
}

/// The modifiers that the engine knows.
pub fn map_modifiers(modifiers: ShellModifiers) -> (result: BrowserModifiers)
    ensures
        result == engine_modifiers(modifiers),
{
    BrowserModifiers {
        shift: modifiers.shift,
        control: modifiers.control,
        alt: modifiers.alt,
        super_key: modifiers.super_key,
    }
}

/// The key that the engine knows.
pub open spec fn engine_key(key: ShellKey) -> BrowserKey {
    match key {
        ShellKey::Escape => BrowserKey::Escape,
        ShellKey::Enter => BrowserKey::Enter,
        ShellKey::Tab => BrowserKey::Tab,
        ShellKey::Backspace => BrowserKey::Backspace,
        ShellKey::Space => BrowserKey::Space,
        ShellKey::Left => BrowserKey::Left,
        ShellKey::Right => BrowserKey::Right,
        ShellKey::Up => BrowserKey::Up,
        ShellKey::Down => BrowserKey::Down,
        ShellKey::Home => BrowserKey::Home,
        ShellKey::End => BrowserKey::End,
        ShellKey::PageUp => BrowserKey::PageUp,
        ShellKey::PageDown => BrowserKey::PageDown,
        ShellKey::Insert => BrowserKey::Insert,
        ShellKey::Delete => BrowserKey::Delete,
        ShellKey::Char(character) => BrowserKey::Character(character),
        ShellKey::F(_) => BrowserKey::Unknown,
        ShellKey::Unknown => BrowserKey::Unknown,
    }
}

/// The key that the engine knows.
pub fn map_key(key: ShellKey) -> (result: BrowserKey)
    ensures
        result == engine_key(key),
{
    match key {
        ShellKey::Escape => BrowserKey::Escape,
        ShellKey::Enter => BrowserKey::Enter,
        ShellKey::Tab => BrowserKey::Tab,
        ShellKey::Backspace => BrowserKey::Backspace,
        ShellKey::Space => BrowserKey::Space,
        ShellKey::Left => BrowserKey::Left,
        ShellKey::Right => BrowserKey::Right,
        ShellKey::Up => BrowserKey::Up,
        ShellKey::Down => BrowserKey::Down,
        ShellKey::Home => BrowserKey::Home,
        ShellKey::End => BrowserKey::End,
        ShellKey::PageUp => BrowserKey::PageUp,
        ShellKey::PageDown => BrowserKey::PageDown,
        ShellKey::Insert => BrowserKey::Insert,
        ShellKey::Delete => BrowserKey::Delete,
        ShellKey::Char(character) => BrowserKey::Character(character),
        ShellKey::F(_) => BrowserKey::Unknown,
        ShellKey::Unknown => BrowserKey::Unknown,
    }
}

/// Whether `result` is what becomes of an event.
pub open spec fn dispatches(event: ShellEvent, result: Dispatch) -> bool {
    match event {
        ShellEvent::MouseMoved { x, y } | ShellEvent::MouseEntered { x, y } => result
            == Dispatch::Send(BrowserInput::PointerMoved { x, y }),
        ShellEvent::MouseExited => result == Dispatch::Send(BrowserInput::PointerExited),
        ShellEvent::ButtonPressed { button, x, y } => result == Dispatch::Send(
            BrowserInput::PointerButton { button: engine_button(button), pressed: true, x, y },
        ),
        ShellEvent::ButtonReleased { button, x, y }
        | ShellEvent::ButtonCancelled { button, x, y } => result == Dispatch::Send(
            BrowserInput::PointerButton { button: engine_button(button), pressed: false, x, y },
        ),
        ShellEvent::Wheel { delta_x, delta_y, x, y } => {
            &&& result matches Dispatch::Send(BrowserInput::Wheel { deltas, x: at_x, y: at_y })
            &&& deltas@ == seq![WheelDelta { delta_x, delta_y }]
            &&& at_x == x
            &&& at_y == y
        },
        ShellEvent::KeyPressed { key, modifiers } => result == Dispatch::Send(
            BrowserInput::Key {
                key: engine_key(key),
                pressed: true,
                modifiers: engine_modifiers(modifiers),
            },
        ),
        ShellEvent::KeyReleased { key, modifiers } => result == Dispatch::Send(
            BrowserInput::Key {
                key: engine_key(key),
                pressed: false,
                modifiers: engine_modifiers(modifiers),
            },
        ),
        ShellEvent::Char(character) => result == Dispatch::Send(BrowserInput::Text(character)),
        ShellEvent::Preedit { text, cursor_byte, anchor_byte } => result == Dispatch::Send(
            BrowserInput::ImePreedit {
                text,
                cursor: cursor_byte as usize,
                anchor: anchor_byte as usize,
            },
        ),
        ShellEvent::Commit(text) => result == Dispatch::Send(BrowserInput::ImeCommit(text)),
        ShellEvent::TextInputDone => result == Dispatch::Consumed,
        ShellEvent::Other => result == Dispatch::Ignored,
    }
}

/// Turn an event in the web view into an input to the engine.
pub fn dispatch_webview_event(event: ShellEvent) -> (result: Dispatch)
    ensures
        dispatches(event, result),
{
    match event {
        ShellEvent::MouseMoved { x, y } | ShellEvent::MouseEntered { x, y } => {
            Dispatch::Send(BrowserInput::PointerMoved { x, y })
        },
        ShellEvent::MouseExited => Dispatch::Send(BrowserInput::PointerExited),
        ShellEvent::ButtonPressed { button, x, y } => {
            let button = map_mouse_button(button);
            Dispatch::Send(BrowserInput::PointerButton { button, pressed: true, x, y })
        },
        ShellEvent::ButtonReleased { button, x, y }
        | ShellEvent::ButtonCancelled { button, x, y } => {
            let button = map_mouse_button(button);
            Dispatch::Send(BrowserInput::PointerButton { button, pressed: false, x, y })
        },
        ShellEvent::Wheel { delta_x, delta_y, x, y } => {
            let mut deltas: Vec<WheelDelta> = Vec::new();
            deltas.push(WheelDelta { delta_x, delta_y });
            assert(deltas@ =~= seq![WheelDelta { delta_x, delta_y }]);
            Dispatch::Send(BrowserInput::Wheel { deltas, x, y })
        },
        ShellEvent::KeyPressed { key, modifiers } => {
            let key = map_key(key);
            let modifiers = map_modifiers(modifiers);
            Dispatch::Send(BrowserInput::Key { key, pressed: true, modifiers })
        },
        ShellEvent::KeyReleased { key, modifiers } => {
            let key = map_key(key);
            let modifiers = map_modifiers(modifiers);
            Dispatch::Send(BrowserInput::Key { key, pressed: false, modifiers })
        },
        ShellEvent::Char(character) => Dispatch::Send(BrowserInput::Text(character)),
        ShellEvent::Preedit { text, cursor_byte, anchor_byte } => {
            let cursor = cursor_byte as usize;
            let anchor = anchor_byte as usize;
            Dispatch::Send(BrowserInput::ImePreedit { text, cursor, anchor })
        },
        ShellEvent::Commit(text) => Dispatch::Send(BrowserInput::ImeCommit(text)),
        ShellEvent::TextInputDone => Dispatch::Consumed,
        ShellEvent::Other => Dispatch::Ignored,
    }
}

/// What the chrome has shown so far.
pub struct Chrome {
    pub focused: bool,
    pub snapshot: BrowserSnapshot,
    /// The URL that the address field was last set to.
    pub url: String,
}

/// What the chrome has to bring up to date.
#[derive(Debug, PartialEq)]
pub struct ChromeUpdate {
    /// The new state of the text field that has the focus, if it changed.
    pub text_input: Option<Option<BrowserTextInput>>,
    /// Whether anything else is to be drawn anew.
    pub snapshot: bool,
    /// The new text of the address field, if the page is another one.
    pub address: Option<String>,
}

impl Chrome {
    /// The chrome of an engine that shows the given state.
    pub fn new(snapshot: BrowserSnapshot) -> (result: Chrome)
        ensures
            !result.focused,
            result.snapshot == snapshot,
            result.url@ == snapshot.url@,
    {
        let url = copy_of(snapshot.url.as_str());
        Chrome { focused: false, snapshot, url }
    }

    /// Note whether the web view has the focus; says whether it has just lost
    /// it, which the engine is to be told.
    pub fn focus(&mut self, focused: bool) -> (lost: bool)
        ensures
            lost == (old(self).focused && !focused),
            *final(self) == (Chrome { focused, ..*old(self) }),
    {
        let lost = self.focused && !focused;
        self.focused = focused;
        lost
    }

    /// Take the latest state of the engine.
    pub fn synchronize(&mut self, latest: BrowserSnapshot) -> (update: ChromeUpdate)
        ensures
            update.text_input == if text_inputs_agree(
                latest.text_input,
                old(self).snapshot.text_input,
            ) {
                None
            } else {
                Some(latest.text_input)
            },
            update.snapshot == !latest.agrees(old(self).snapshot),
            update.address is Some <==> latest.url@ != old(self).url@,
            update.address matches Some(address) ==> address@ == latest.url@,
            final(self).focused == old(self).focused,
            final(self).url@ == latest.url@,
            final(self).snapshot == if update.snapshot {
                latest
            } else {
                old(self).snapshot
            },
    {
        let text_input = if same_text_inputs(&latest.text_input, &self.snapshot.text_input) {
            None
        } else {
            Some(
                match &latest.text_input {
                    Some(input) => Some(input.clone()),
                    None => None,
                },
            )
        };
        let address = if same_text(latest.url.as_str(), self.url.as_str()) {
            None
        } else {
            self.url = copy_of(latest.url.as_str());
            Some(copy_of(latest.url.as_str()))
        };
        let snapshot = !latest.same(&self.snapshot);
        if snapshot {
            self.snapshot = latest;
        }
        ChromeUpdate { text_input, snapshot, address }
    }
}

/// A window that shows a page with a title names the page first and then the
/// browser; any other names the browser alone.
pub proof fn windows_name_page_and_browser(title: Seq<char>)
    ensures
        title.len() > 0 ==> titled(title) == title + " — Myrica"@,
        title.len() == 0 ==> titled(title) == "Myrica"@,
{
}

/// The engine can tell the buttons apart that the window system tells apart, and
/// the left one is the primary one.
pub proof fn buttons_stay_apart(first: ShellButton, second: ShellButton)
    ensures
        engine_button(first) == engine_button(second) ==> first == second,
        engine_button(ShellButton::Left) == BrowserMouseButton::Primary,
        engine_button(ShellButton::Right) == BrowserMouseButton::Secondary,
{
}

/// Every modifier is handed on as itself.
pub proof fn modifiers_stay_themselves(modifiers: ShellModifiers)
    ensures
        engine_modifiers(modifiers).shift == modifiers.shift,
        engine_modifiers(modifiers).control == modifiers.control,
        engine_modifiers(modifiers).alt == modifiers.alt,
        engine_modifiers(modifiers).super_key == modifiers.super_key,
{
}

/// Keys that the engine knows stay apart, a character key has its character, and
/// only the function keys and those that nobody knows are unknown.
pub proof fn keys_stay_apart(first: ShellKey, second: ShellKey)
    ensures
        engine_key(first) == engine_key(second) && !(engine_key(first) is Unknown) ==> first
            == second,
        engine_key(first) is Unknown <==> first is F || first is Unknown,
        first matches ShellKey::Char(character) ==> engine_key(first) == BrowserKey::Character(
            character,
        ),
        first is Escape ==> engine_key(first) is Escape,
        first is Enter ==> engine_key(first) is Enter,
        first is Tab ==> engine_key(first) is Tab,
        first is Backspace ==> engine_key(first) is Backspace,
        first is Space ==> engine_key(first) is Space,
        first is Left ==> engine_key(first) is Left,
        first is Right ==> engine_key(first) is Right,
        first is Up ==> engine_key(first) is Up,
        first is Down ==> engine_key(first) is Down,
        first is Home ==> engine_key(first) is Home,
        first is End ==> engine_key(first) is End,
        first is PageUp ==> engine_key(first) is PageUp,
        first is PageDown ==> engine_key(first) is PageDown,
        first is Insert ==> engine_key(first) is Insert,
        first is Delete ==> engine_key(first) is Delete,
{
}

/// The pointer reaches the engine where the window system has it, whatever the
/// event is; a button is down from its press to its release, and one whose press
/// was taken back is up.
pub proof fn pointers_are_where_they_are(event: ShellEvent, result: Dispatch)
    requires
        dispatches(event, result),
    ensures
        (event is MouseMoved || event is MouseEntered) <==> (result matches Dispatch::Send(input)
            && input is PointerMoved),
        event matches ShellEvent::MouseMoved { x, y } ==> (result matches Dispatch::Send(
            BrowserInput::PointerMoved { x: to_x, y: to_y },
        ) && to_x == x && to_y == y),
        event matches ShellEvent::MouseEntered { x, y } ==> (result matches Dispatch::Send(
            BrowserInput::PointerMoved { x: to_x, y: to_y },
        ) && to_x == x && to_y == y),
        event is MouseExited <==> (result matches Dispatch::Send(input) && input is PointerExited),
        event matches ShellEvent::ButtonPressed { button, x, y } ==> (
        result matches Dispatch::Send(
            BrowserInput::PointerButton { button: told, pressed, x: at_x, y: at_y },
        ) && told == engine_button(button) && pressed && at_x == x && at_y == y),
        event matches ShellEvent::ButtonReleased { button, x, y } ==> (
        result matches Dispatch::Send(
            BrowserInput::PointerButton { button: told, pressed, x: at_x, y: at_y },
        ) && told == engine_button(button) && !pressed && at_x == x && at_y == y),
        event matches ShellEvent::ButtonCancelled { button, x, y } ==> (
        result matches Dispatch::Send(
            BrowserInput::PointerButton { button: told, pressed, x: at_x, y: at_y },
        ) && told == engine_button(button) && !pressed && at_x == x && at_y == y),
        event matches ShellEvent::Wheel { delta_x, delta_y, x, y } ==> (
        result matches Dispatch::Send(BrowserInput::Wheel { deltas, x: at_x, y: at_y })
            && deltas@.len() == 1 && deltas@[0].delta_x == delta_x && deltas@[0].delta_y == delta_y
            && at_x == x && at_y == y),
{
}

/// Keys and texts reach the engine as they are: which key, whether it went down,
/// with which modifiers, and which text with which caret.
pub proof fn keys_and_texts_are_handed_on(event: ShellEvent, result: Dispatch)
    requires
        dispatches(event, result),
    ensures
        event matches ShellEvent::KeyPressed { key, modifiers } ==> (
        result matches Dispatch::Send(
            BrowserInput::Key { key: told, pressed, modifiers: held },
        ) && told == engine_key(key) && pressed && held == engine_modifiers(modifiers)),
        event matches ShellEvent::KeyReleased { key, modifiers } ==> (
        result matches Dispatch::Send(
            BrowserInput::Key { key: told, pressed, modifiers: held },
        ) && told == engine_key(key) && !pressed && held == engine_modifiers(modifiers)),
        event matches ShellEvent::Char(character) ==> (result matches Dispatch::Send(
            BrowserInput::Text(told),
        ) && told == character),
        event matches ShellEvent::Preedit { text, cursor_byte, anchor_byte } ==> (
        result matches Dispatch::Send(
            BrowserInput::ImePreedit { text: told, cursor, anchor },
        ) && told == text && cursor == cursor_byte && anchor == anchor_byte),
        event matches ShellEvent::Commit(text) ==> (result matches Dispatch::Send(
            BrowserInput::ImeCommit(told),
        ) && told == text),
        event is TextInputDone <==> result is Consumed,
        event is Other <==> result is Ignored,
{
}

} // verus!
