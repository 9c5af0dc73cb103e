//! What an input means to the document that has it: the events that the
//! document is told of, one by one.

use crate::backend::{BrowserInput, BrowserKey, BrowserModifiers, BrowserMouseButton, WheelDelta};
use crate::scalar::Real32;
use vstd::prelude::*;

verus! {

/// The value of a key, as documents know it.
#[derive(Clone, Copy, Debug, PartialEq, Eq, Structural)]
pub enum DomKey {
    Escape,
    Enter,
    Tab,
    Backspace,
    ArrowLeft,
    ArrowRight,
    ArrowUp,
    ArrowDown,
    Home,
    End,
    PageUp,
    PageDown,
    Insert,
    Delete,
    Character(char),
    Unidentified,
}

/// The place of a key on the keyboard, as documents know it.
#[derive(Clone, Copy, Debug, PartialEq, Eq, Structural)]
pub enum DomCode {
    Escape,
    Enter,
    Tab,
    Backspace,
    Space,
    ArrowLeft,
    ArrowRight,
    ArrowUp,
    ArrowDown,
    Home,
    End,
    PageUp,
    PageDown,
    Insert,
    Delete,
    Unidentified,
}

/// A mouse button, as documents know it.
#[derive(Clone, Copy, Debug, PartialEq, Eq, Structural)]
pub enum DomButton {
    Main,
    Auxiliary,
    Secondary,
}

/// The mouse buttons that are held down.
#[derive(Clone, Copy, Debug, PartialEq, Eq, Structural)]
pub struct HeldButtons {
    pub main: bool,
    pub auxiliary: bool,
    pub secondary: bool,
}

/// A key going down or up.
#[derive(Clone, Copy, Debug, PartialEq, Eq, Structural)]
pub struct DomKeyEvent {
    pub key: DomKey,
    pub code: DomCode,
    pub modifiers: BrowserModifiers,
    /// The text that the key types.
    pub text: Option<char>,
}

/// The pointer, with the button that moved it or was moved on it.
#[derive(Clone, Copy, Debug, PartialEq)]
pub struct DomPointerEvent {
    pub x: Real32,
    pub y: Real32,
    pub button: DomButton,
    pub buttons: HeldButtons,
}

/// An editing command of the platform.
#[derive(Clone, Copy, Debug, PartialEq, Eq, Structural)]
pub enum EditingCommand {
    DeleteToBeginningOfLine,
    DeleteWordBackward,
    DeleteBackward,
}

/// What a document is told.
#[derive(Debug, PartialEq)]
pub enum DomEvent {
    ClearHover,
    PointerMove(DomPointerEvent),
    PointerDown(DomPointerEvent),
    PointerUp(DomPointerEvent),
    Wheel { deltas: Vec<WheelDelta>, pointer: DomPointerEvent },
    KeyDown(DomKeyEvent),
    KeyUp(DomKeyEvent),
    Editing(EditingCommand),
    /// A composition has the given text, caret and other end of the selection.
    ImePreedit { text: String, cursor: usize, anchor: usize },
    /// There is no composition any more.
    ImeClear,
    ImeCommit(String),
    ImeDisabled,
}

/// What the engine remembers between inputs.
#[derive(Clone, Copy, Debug, PartialEq, Eq, Structural)]
pub struct InputState {
    pub mouse_buttons: HeldButtons,
    pub key_modifiers: BrowserModifiers,
}

/// The value and the place of a key.
pub open spec fn dom_key(key: BrowserKey) -> (DomKey, DomCode) {
    match key {
        BrowserKey::Escape => (DomKey::Escape, DomCode::Escape),
        BrowserKey::Enter => (DomKey::Enter, DomCode::Enter),
        BrowserKey::Tab => (DomKey::Tab, DomCode::Tab),
        BrowserKey::Backspace => (DomKey::Backspace, DomCode::Backspace),
        BrowserKey::Space => (DomKey::Character(' '), DomCode::Space),
        BrowserKey::Left => (DomKey::ArrowLeft, DomCode::ArrowLeft),
        BrowserKey::Right => (DomKey::ArrowRight, DomCode::ArrowRight),
        BrowserKey::Up => (DomKey::ArrowUp, DomCode::ArrowUp),
        BrowserKey::Down => (DomKey::ArrowDown, DomCode::ArrowDown),
        BrowserKey::Home => (DomKey::Home, DomCode::Home),
        BrowserKey::End => (DomKey::End, DomCode::End),
        BrowserKey::PageUp => (DomKey::PageUp, DomCode::PageUp),
        BrowserKey::PageDown => (DomKey::PageDown, DomCode::PageDown),
        BrowserKey::Insert => (DomKey::Insert, DomCode::Insert),
        BrowserKey::Delete => (DomKey::Delete, DomCode::Delete),
        BrowserKey::Character(character) => (DomKey::Character(character), DomCode::Unidentified),
        BrowserKey::Unknown => (DomKey::Unidentified, DomCode::Unidentified),
    }
}

/// The value and the place of a key.
pub fn map_key(key: BrowserKey) -> (result: (DomKey, DomCode))
    ensures
        result == dom_key(key),
{
    match key {
        BrowserKey::Escape => (DomKey::Escape, DomCode::Escape),
        BrowserKey::Enter => (DomKey::Enter, DomCode::Enter),
        BrowserKey::Tab => (DomKey::Tab, DomCode::Tab),
        BrowserKey::Backspace => (DomKey::Backspace, DomCode::Backspace),
        BrowserKey::Space => (DomKey::Character(' '), DomCode::Space),
        BrowserKey::Left => (DomKey::ArrowLeft, DomCode::ArrowLeft),
        BrowserKey::Right => (DomKey::ArrowRight, DomCode::ArrowRight),
        BrowserKey::Up => (DomKey::ArrowUp, DomCode::ArrowUp),
        BrowserKey::Down => (DomKey::ArrowDown, DomCode::ArrowDown),
        BrowserKey::Home => (DomKey::Home, DomCode::Home),
        BrowserKey::End => (DomKey::End, DomCode::End),
        BrowserKey::PageUp => (DomKey::PageUp, DomCode::PageUp),
        BrowserKey::PageDown => (DomKey::PageDown, DomCode::PageDown),
        BrowserKey::Insert => (DomKey::Insert, DomCode::Insert),
        BrowserKey::Delete => (DomKey::Delete, DomCode::Delete),
        BrowserKey::Character(character) => (DomKey::Character(character), DomCode::Unidentified),
        BrowserKey::Unknown => (DomKey::Unidentified, DomCode::Unidentified),
    }
}

/// The button of a document for a button of the mouse.
pub open spec fn dom_button(button: BrowserMouseButton) -> DomButton {
    match button {
        BrowserMouseButton::Primary => DomButton::Main,
        BrowserMouseButton::Auxiliary => DomButton::Auxiliary,
        BrowserMouseButton::Secondary => DomButton::Secondary,
    }
}

/// The button of a document for a button of the mouse.
pub fn map_mouse_button(button: BrowserMouseButton) -> (result: DomButton)
    ensures
        result == dom_button(button),
{
    match button {
        BrowserMouseButton::Primary => DomButton::Main,
        BrowserMouseButton::Auxiliary => DomButton::Auxiliary,
        BrowserMouseButton::Secondary => DomButton::Secondary,
    }
}

impl HeldButtons {
    /// No button held down.
    pub open spec fn none() -> HeldButtons {
        HeldButtons { main: false, auxiliary: false, secondary: false }
    }

    /// The buttons held down once the given one has gone down or up.
    pub open spec fn with(self, button: DomButton, pressed: bool) -> HeldButtons {
        match button {
            DomButton::Main => HeldButtons { main: pressed, ..self },
            DomButton::Auxiliary => HeldButtons { auxiliary: pressed, ..self },
            DomButton::Secondary => HeldButtons { secondary: pressed, ..self },
        }
    }
}

/// Whether a key types a text, which comes as an input of its own.
pub open spec fn types_text(key: BrowserKey, modifiers: BrowserModifiers) -> bool {
    (key is Character || key is Space) && !modifiers.control && !modifiers.super_key
}

/// Whether a text is one that was typed, not one that came with a shortcut.
pub open spec fn is_typed(character: char, modifiers: BrowserModifiers) -> bool {
    !modifiers.control && !modifiers.super_key && !crate::text::is_control_char(character)
}

/// A key going down or up, with the text that it types.
pub open spec fn key_event(
    key: BrowserKey,
    modifiers: BrowserModifiers,
    text: Option<char>,
) -> DomKeyEvent {
    DomKeyEvent { key: dom_key(key).0, code: dom_key(key).1, modifiers, text }
}

/// The editing command that the platform has for the backspace key.
pub open spec fn backspace_command(modifiers: BrowserModifiers) -> EditingCommand {
    if modifiers.super_key {
        EditingCommand::DeleteToBeginningOfLine
    } else if modifiers.alt {
        EditingCommand::DeleteWordBackward
    } else {
        EditingCommand::DeleteBackward
    }
}

impl InputState {
    /// Nothing held down.
    pub open spec fn initial() -> InputState {
        InputState { mouse_buttons: HeldButtons::none(), key_modifiers: BrowserModifiers::none() }
    }

    /// What is remembered after an input.
    pub open spec fn after(self, input: BrowserInput) -> InputState {
        match input {
            BrowserInput::PointerButton { button, pressed, .. } => InputState {
                mouse_buttons: self.mouse_buttons.with(dom_button(button), pressed),
                ..self
            },
            BrowserInput::Key { modifiers, .. } => InputState { key_modifiers: modifiers, ..self },
            BrowserInput::FocusLost => InputState {
                key_modifiers: BrowserModifiers::none(),
                ..self
            },
            _ => self,
        }
    }

    /// The pointer at a place, with the buttons held down.
    pub open spec fn pointer(self, x: Real32, y: Real32, button: DomButton) -> DomPointerEvent {
        DomPointerEvent { x, y, button, buttons: self.mouse_buttons }
    }

    /// What the document is told of an input.
    pub open spec fn events(self, platform_editing: bool, input: BrowserInput) -> Seq<DomEvent> {
        match input {
            BrowserInput::PointerMoved { x, y } => {
                seq![DomEvent::PointerMove(self.pointer(x, y, DomButton::Main))]
            },
            BrowserInput::PointerExited => seq![DomEvent::ClearHover],
            BrowserInput::PointerButton { button, pressed, x, y } => {
                let event = self.after(input).pointer(x, y, dom_button(button));
                if pressed {
                    seq![DomEvent::PointerDown(event)]
                } else {
                    seq![DomEvent::PointerUp(event)]
                }
            },
            BrowserInput::Wheel { deltas, x, y } => {
                seq![DomEvent::Wheel { deltas, pointer: self.pointer(x, y, DomButton::Main) }]
            },
            BrowserInput::Key { key, pressed, modifiers } => if types_text(key, modifiers) {
                Seq::empty()
            } else if platform_editing && key == BrowserKey::Backspace && pressed {
                seq![DomEvent::Editing(backspace_command(modifiers))]
            } else if pressed {
                seq![DomEvent::KeyDown(key_event(key, modifiers, None))]
            } else {
                seq![DomEvent::KeyUp(key_event(key, modifiers, None))]
            },
            BrowserInput::Text(character) => if is_typed(character, self.key_modifiers) {
                let key = BrowserKey::Character(character);
                seq![
                    DomEvent::KeyDown(key_event(key, self.key_modifiers, Some(character))),
                    DomEvent::KeyUp(key_event(key, self.key_modifiers, None)),
                ]
            } else {
                Seq::empty()
            },
            BrowserInput::ImePreedit { text, cursor, anchor } => {
                seq![DomEvent::ImePreedit { text, cursor, anchor }]
            },
            BrowserInput::ImeCommit(text) => seq![DomEvent::ImeClear, DomEvent::ImeCommit(text)],
            BrowserInput::FocusLost => seq![DomEvent::ImeDisabled],
        }
    }

    /// Nothing held down.
    pub fn new() -> (result: InputState)
        ensures
            result == InputState::initial(),
    {
        InputState {
            mouse_buttons: HeldButtons { main: false, auxiliary: false, secondary: false },
            key_modifiers: BrowserModifiers {
                shift: false,
                control: false,
                alt: false,
                super_key: false,
            },
        }
    }

    fn pointer_event(&self, x: Real32, y: Real32, button: DomButton) -> (result: DomPointerEvent)
        ensures
            result == self.pointer(x, y, button),
    {
        DomPointerEvent { x, y, button, buttons: self.mouse_buttons }
    }

    fn dispatch_key(
        key: BrowserKey,
        modifiers: BrowserModifiers,
        text: Option<char>,
    ) -> (result: DomKeyEvent)
        ensures
            result == key_event(key, modifiers, text),
    {
        let (value, code) = map_key(key);
        DomKeyEvent { key: value, code, modifiers, text }
    }

    /// Hand an input to the document, if there is one: `platform_editing` says
    /// whether the platform has editing commands of its own.  Returns what the
    /// document is told; there is nothing where there is no document.
    pub fn handle_input(
        &mut self,
        has_document: bool,
        platform_editing: bool,
        input: BrowserInput,
    ) -> (result: Option<Vec<DomEvent>>)
        ensures
            result is Some <==> has_document,
            result matches Some(events) ==> events@ == old(self).events(platform_editing, input),
            *final(self) == if has_document {
                old(self).after(input)
            } else {
                *old(self)
            },
    {
        if !has_document {
            return None;
        }
        let mut events: Vec<DomEvent> = Vec::new();
        let ghost told = old(self).events(platform_editing, input);
        match input {
            BrowserInput::PointerMoved { x, y } => {
                events.push(DomEvent::PointerMove(self.pointer_event(x, y, DomButton::Main)));
            },
            BrowserInput::PointerExited => {
                events.push(DomEvent::ClearHover);
            },
            BrowserInput::PointerButton { button, pressed, x, y } => {
                let button = map_mouse_button(button);
                match button {
                    DomButton::Main => self.mouse_buttons.main = pressed,
                    DomButton::Auxiliary => self.mouse_buttons.auxiliary = pressed,
                    DomButton::Secondary => self.mouse_buttons.secondary = pressed,
                }
                let event = self.pointer_event(x, y, button);
                events.push(
                    if pressed {
                        DomEvent::PointerDown(event)
                    } else {
                        DomEvent::PointerUp(event)
                    },
                );
            },
            BrowserInput::Wheel { deltas, x, y } => {
                let pointer = self.pointer_event(x, y, DomButton::Main);
                events.push(DomEvent::Wheel { deltas, pointer });
            },
            BrowserInput::Key { key, pressed, modifiers } => {
                self.key_modifiers = modifiers;
                // Printable text comes as an input of its own.  Typing it on the
                // key as well would double every character.
                let types = match key {
                    BrowserKey::Character(_) | BrowserKey::Space => !modifiers.control
                        && !modifiers.super_key,
                    _ => false,
                };
                if !types {
                    if platform_editing && pressed && key == BrowserKey::Backspace {
                        events.push(
                            DomEvent::Editing(
                                if modifiers.super_key {
                                    EditingCommand::DeleteToBeginningOfLine
                                } else if modifiers.alt {
                                    EditingCommand::DeleteWordBackward
                                } else {
                                    EditingCommand::DeleteBackward
                                },
                            ),
                        );
                    } else {
                        let event = InputState::dispatch_key(key, modifiers, None);
                        events.push(
                            if pressed {
                                DomEvent::KeyDown(event)
                            } else {
                                DomEvent::KeyUp(event)
                            },
                        );
                    }
                }
            },
            BrowserInput::Text(character) => {
                let modifiers = self.key_modifiers;
                if !modifiers.control && !modifiers.super_key && !character.is_control() {
                    let key = BrowserKey::Character(character);
                    let down = InputState::dispatch_key(key, modifiers, Some(character));
                    events.push(DomEvent::KeyDown(down));
                    let up = InputState::dispatch_key(key, modifiers, None);
                    events.push(DomEvent::KeyUp(up));
                }
            },
            BrowserInput::ImePreedit { text, cursor, anchor } => {
                events.push(DomEvent::ImePreedit { text, cursor, anchor });
            },
            BrowserInput::ImeCommit(text) => {
                // The empty composition before a commit comes folded into the
                // commit itself; the document expects it to be cleared first.
                events.push(DomEvent::ImeClear);
                events.push(DomEvent::ImeCommit(text));
            },
            BrowserInput::FocusLost => {
                self.key_modifiers = BrowserModifiers::default();
                events.push(DomEvent::ImeDisabled);
            },
        }
        assert(events@ =~= told);
        Some(events)
    }
}

/// The text that a document types on being told of the events.
pub open spec fn typed_text(events: Seq<DomEvent>) -> Seq<char>
    decreases events.len(),
{
    if events.len() == 0 {
        Seq::empty()
    } else {
        match events.last() {
            DomEvent::KeyDown(DomKeyEvent { text: Some(character), .. }) => typed_text(
                events.drop_last(),
            ).push(character),
            _ => typed_text(events.drop_last()),
        }
    }
}

/// A printable key comes as the key going down, its text, and the key going up;
/// the document types the text exactly once.  The space bar is such a key.
pub proof fn printable_keys_type_once(
    state: InputState,
    platform_editing: bool,
    key: BrowserKey,
    character: char,
    modifiers: BrowserModifiers,
)
    requires
        types_text(key, modifiers),
        !crate::text::is_control_char(character),
    ensures
        ({
            let press = BrowserInput::Key { key, pressed: true, modifiers };
            let text = BrowserInput::Text(character);
            let release = BrowserInput::Key { key, pressed: false, modifiers };
            let told = state.events(platform_editing, press) + state.after(press).events(
                platform_editing,
                text,
            ) + state.after(press).after(text).events(platform_editing, release);
            typed_text(told) == seq![character]
        }),
{
    let press = BrowserInput::Key { key, pressed: true, modifiers };
    let text = BrowserInput::Text(character);
    let release = BrowserInput::Key { key, pressed: false, modifiers };
    let told = state.events(platform_editing, press) + state.after(press).events(
        platform_editing,
        text,
    ) + state.after(press).after(text).events(platform_editing, release);
    let down = DomEvent::KeyDown(
        key_event(BrowserKey::Character(character), modifiers, Some(character)),
    );
    let up = DomEvent::KeyUp(key_event(BrowserKey::Character(character), modifiers, None));
    assert(told =~= seq![down, up]);
    assert(told.drop_last() =~= seq![down]);
    assert(seq![down].drop_last() =~= Seq::empty());
    reveal_with_fuel(typed_text, 3);
    assert(typed_text(told) =~= seq![character]);
}

/// While a shortcut's modifier is held down, no text is typed.
pub proof fn shortcuts_type_nothing(
    state: InputState,
    platform_editing: bool,
    key: BrowserKey,
    pressed: bool,
    character: char,
    modifiers: BrowserModifiers,
)
    requires
        modifiers.control || modifiers.super_key,
    ensures
        ({
            let press = BrowserInput::Key { key, pressed, modifiers };
            &&& typed_text(state.events(platform_editing, press)) == Seq::<char>::empty()
            &&& state.after(press).events(platform_editing, BrowserInput::Text(character))
                == Seq::<DomEvent>::empty()
        }),
{
    let press = BrowserInput::Key { key, pressed, modifiers };
    let told = state.events(platform_editing, press);
    reveal_with_fuel(typed_text, 2);
    assert(told.drop_last() =~= Seq::empty());
}

/// A mouse button is held from its press to its release, and the other buttons
/// are not touched by either.
pub proof fn buttons_are_held_until_released(
    state: InputState,
    button: BrowserMouseButton,
    x: Real32,
    y: Real32,
    to_x: Real32,
    to_y: Real32,
)
    ensures
        ({
            let press = BrowserInput::PointerButton { button, pressed: true, x, y };
            let release = BrowserInput::PointerButton { button, pressed: false, x: to_x, y: to_y };
            let held = state.after(press).mouse_buttons;
            let released = state.after(press).after(release).mouse_buttons;
            &&& held == state.mouse_buttons.with(dom_button(button), true)
            &&& released == state.mouse_buttons.with(dom_button(button), false)
        }),
{
}

/// Losing the focus lets go of every modifier, so that text typed afterwards is
/// not taken for a shortcut, and of any composition.
pub proof fn losing_focus_releases_modifiers(
    state: InputState,
    platform_editing: bool,
    character: char,
)
    requires
        !crate::text::is_control_char(character),
    ensures
        state.events(platform_editing, BrowserInput::FocusLost) == seq![DomEvent::ImeDisabled],
        state.after(BrowserInput::FocusLost).key_modifiers == BrowserModifiers::none(),
        state.after(BrowserInput::FocusLost).events(
            platform_editing,
            BrowserInput::Text(character),
        ).len() == 2,
{
}

/// Documents can tell all keys apart, and a character key has its character for
/// its value.
pub proof fn keys_are_told_apart(first: BrowserKey, second: BrowserKey, character: char)
    ensures
        dom_key(first) == dom_key(second) ==> first == second,
        dom_key(BrowserKey::Character(character)).0 == DomKey::Character(character),
        dom_key(BrowserKey::Space).0 == DomKey::Character(' '),
        dom_key(first).0 is Unidentified ==> first is Unknown,
        first is Enter ==> dom_key(first) == (DomKey::Enter, DomCode::Enter),
        first is Tab ==> dom_key(first) == (DomKey::Tab, DomCode::Tab),
        first is Escape ==> dom_key(first) == (DomKey::Escape, DomCode::Escape),
        first is Backspace ==> dom_key(first) == (DomKey::Backspace, DomCode::Backspace),
        first is Delete ==> dom_key(first) == (DomKey::Delete, DomCode::Delete),
        first is Insert ==> dom_key(first) == (DomKey::Insert, DomCode::Insert),
        first is Left ==> dom_key(first) == (DomKey::ArrowLeft, DomCode::ArrowLeft),
        first is Right ==> dom_key(first) == (DomKey::ArrowRight, DomCode::ArrowRight),
        first is Up ==> dom_key(first) == (DomKey::ArrowUp, DomCode::ArrowUp),
        first is Down ==> dom_key(first) == (DomKey::ArrowDown, DomCode::ArrowDown),
        first is Home ==> dom_key(first) == (DomKey::Home, DomCode::Home),
        first is End ==> dom_key(first) == (DomKey::End, DomCode::End),
        first is PageUp ==> dom_key(first) == (DomKey::PageUp, DomCode::PageUp),
        first is PageDown ==> dom_key(first) == (DomKey::PageDown, DomCode::PageDown),
{
}

/// Documents can tell all buttons apart; the primary one is the main one.
pub proof fn buttons_are_told_apart(first: BrowserMouseButton, second: BrowserMouseButton)
    ensures
        dom_button(first) == dom_button(second) ==> first == second,
        dom_button(BrowserMouseButton::Primary) == DomButton::Main,
        dom_button(BrowserMouseButton::Secondary) == DomButton::Secondary,
{
}

/// After a press a button is held, after a release it is not, and the others are
/// as they were; nothing but buttons changes which are held.
pub proof fn each_button_is_held_by_itself(
    state: InputState,
    input: BrowserInput,
    button: BrowserMouseButton,
    pressed: bool,
    x: Real32,
    y: Real32,
)
    ensures
        ({
            let before = state.mouse_buttons;
            let after = state.after(
                BrowserInput::PointerButton { button, pressed, x, y },
            ).mouse_buttons;
            &&& after.main == if button == BrowserMouseButton::Primary {
                pressed
            } else {
                before.main
            }
            &&& after.auxiliary == if button == BrowserMouseButton::Auxiliary {
                pressed
            } else {
                before.auxiliary
            }
            &&& after.secondary == if button == BrowserMouseButton::Secondary {
                pressed
            } else {
                before.secondary
            }
        }),
        !(input is PointerButton) ==> state.after(input).mouse_buttons == state.mouse_buttons,
        state.after(
            BrowserInput::PointerButton { button, pressed, x, y },
        ).key_modifiers == state.key_modifiers,
{
}

/// The modifiers are those of the last key, until the focus is lost.
pub proof fn modifiers_are_those_of_the_last_key(
    state: InputState,
    input: BrowserInput,
    key: BrowserKey,
    pressed: bool,
    modifiers: BrowserModifiers,
)
    ensures
        state.after(BrowserInput::Key { key, pressed, modifiers }).key_modifiers == modifiers,
        ({
            let none = state.after(BrowserInput::FocusLost).key_modifiers;
            !none.shift && !none.control && !none.alt && !none.super_key
        }),
        !(input is Key) && !(input is FocusLost) ==> state.after(input).key_modifiers
            == state.key_modifiers,
{
}

/// The document is told of the pointer where it is, with the buttons that are
/// held by then: of a move as a move, of a press as a press of that button and of
/// a release as a release of it, and of all turns of the wheel.
pub proof fn pointers_are_told_as_they_are(
    state: InputState,
    platform_editing: bool,
    button: BrowserMouseButton,
    pressed: bool,
    deltas: Vec<WheelDelta>,
    x: Real32,
    y: Real32,
)
    ensures
        ({
            let told = state.events(platform_editing, BrowserInput::PointerMoved { x, y });
            told.len() == 1 && (told[0] matches DomEvent::PointerMove(event) && event.x == x
                && event.y == y && event.buttons == state.mouse_buttons && event.button
                == DomButton::Main)
        }),
        ({
            let input = BrowserInput::PointerButton { button, pressed, x, y };
            let told = state.events(platform_editing, input);
            let held = state.after(input).mouse_buttons;
            &&& told.len() == 1
            &&& pressed ==> (told[0] matches DomEvent::PointerDown(event) && event.x == x && event.y
                == y && event.button == dom_button(button) && event.buttons == held)
            &&& !pressed ==> (told[0] matches DomEvent::PointerUp(event) && event.x == x && event.y
                == y && event.button == dom_button(button) && event.buttons == held)
        }),
        ({
            let told = state.events(platform_editing, BrowserInput::Wheel { deltas, x, y });
            told.len() == 1 && (told[0] matches DomEvent::Wheel { deltas: turns, pointer } && turns
                == deltas && pointer.x == x && pointer.y == y && pointer.buttons
                == state.mouse_buttons)
        }),
        state.events(platform_editing, BrowserInput::PointerExited) == seq![DomEvent::ClearHover],
{
}

/// A key that types no text is told as itself: once when it goes down and once
/// when it goes up, with its modifiers.  The one exception is the backspace key
/// on a platform with editing commands of its own, which is such a command when
/// it goes down.
pub proof fn other_keys_are_told_as_themselves(
    state: InputState,
    platform_editing: bool,
    key: BrowserKey,
    pressed: bool,
    modifiers: BrowserModifiers,
)
    ensures
        ({
            let told = state.events(platform_editing, BrowserInput::Key { key, pressed, modifiers });
            let shortcut = modifiers.control || modifiers.super_key;
            let printable = key is Character || key is Space;
            &&& printable && !shortcut ==> told.len() == 0
            &&& !(printable && !shortcut) ==> told.len() == 1
            &&& !(printable && !shortcut) && !(platform_editing && pressed && key is Backspace)
                && pressed ==> (told[0] matches DomEvent::KeyDown(event) && (event.key, event.code)
                == dom_key(key) && event.modifiers == modifiers && event.text is None)
            &&& !(printable && !shortcut) && !pressed ==> (told[0] matches DomEvent::KeyUp(event)
                && (event.key, event.code) == dom_key(key) && event.modifiers == modifiers
                && event.text is None)
            &&& platform_editing && pressed && key is Backspace ==> (
            told[0] matches DomEvent::Editing(command) && command == if modifiers.super_key {
                EditingCommand::DeleteToBeginningOfLine
            } else if modifiers.alt {
                EditingCommand::DeleteWordBackward
            } else {
                EditingCommand::DeleteBackward
            })
        }),
{
}

/// A text that is typed without a shortcut is told as a key with that character
/// going down and up, and types that character; control characters and what comes
/// with a shortcut are not told.
pub proof fn texts_are_typed_unless_shortcuts(
    state: InputState,
    platform_editing: bool,
    character: char,
)
    ensures
        ({
            let told = state.events(platform_editing, BrowserInput::Text(character));
            let held = state.key_modifiers;
            if held.control || held.super_key || crate::text::is_control_char(character) {
                told.len() == 0
            } else {
                &&& told.len() == 2
                &&& told[0] matches DomEvent::KeyDown(event) && event.text == Some(character)
                    && event.key == DomKey::Character(character) && event.modifiers == held
                &&& told[1] matches DomEvent::KeyUp(event) && event.text is None && event.key
                    == DomKey::Character(character) && event.modifiers == held
            }
        }),
        state.after(BrowserInput::Text(character)) == state,
{
}

/// A composition is told as it is, and a commit takes the place of it.
pub proof fn compositions_are_told_as_they_are(
    state: InputState,
    platform_editing: bool,
    text: String,
    cursor: usize,
    anchor: usize,
)
    ensures
        state.events(platform_editing, BrowserInput::ImePreedit { text, cursor, anchor }) == seq![
            DomEvent::ImePreedit { text, cursor, anchor },
        ],
        ({
            let told = state.events(platform_editing, BrowserInput::ImeCommit(text));
            told.len() == 2 && told[0] is ImeClear && told[1] == DomEvent::ImeCommit(text)
        }),
{
}

/// Nothing is held down to begin with.
pub proof fn nothing_is_held_at_first()
    ensures
        ({
            let start = InputState::initial();
            &&& !start.mouse_buttons.main && !start.mouse_buttons.auxiliary
                && !start.mouse_buttons.secondary
            &&& !start.key_modifiers.shift && !start.key_modifiers.control
                && !start.key_modifiers.alt && !start.key_modifiers.super_key
        }),
{
}

} // verus!
