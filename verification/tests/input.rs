use myrica::backend::ime::field_text;
use myrica::backend::input::{
    map_key, map_mouse_button, DomButton, DomCode, DomEvent, DomKey, DomKeyEvent, DomPointerEvent,
    EditingCommand, HeldButtons, InputState,
};
use myrica::backend::{
    BrowserInput, BrowserKey, BrowserModifiers, BrowserMouseButton, WheelDelta,
};
use myrica::scalar::{Real32, Real64};

fn number(value: f32) -> Real32 {
    Real32::from_bits(value.to_bits())
}

fn tell(state: &mut InputState, input: BrowserInput) -> Vec<DomEvent> {
    state.handle_input(true, false, input).unwrap()
}

fn key(key: BrowserKey, pressed: bool, modifiers: BrowserModifiers) -> BrowserInput {
    BrowserInput::Key { key, pressed, modifiers }
}

fn typed(events: &[DomEvent]) -> String {
    events
        .iter()
        .filter_map(|event| match event {
            DomEvent::KeyDown(event) => event.text,
            _ => None,
        })
        .collect()
}

/// A text field that does what it is told.
struct Field {
    state: InputState,
    text: String,
    cursor: usize,
    /// How many bytes before the caret are a composition.
    composed: usize,
}

impl Field {
    fn new() -> Field {
        Field { state: InputState::new(), text: String::new(), cursor: 0, composed: 0 }
    }

    fn put(&mut self, text: &str) {
        self.text.insert_str(self.cursor, text);
        self.cursor += text.len();
    }

    fn drop_composition(&mut self) {
        let start = self.cursor - self.composed;
        self.text.replace_range(start..self.cursor, "");
        self.cursor = start;
        self.composed = 0;
    }

    fn handle_input(&mut self, input: BrowserInput) {
        for event in tell(&mut self.state, input) {
            match event {
                DomEvent::KeyDown(DomKeyEvent { text: Some(c), .. }) => {
                    self.put(&String::from(c));
                }
                DomEvent::KeyDown(DomKeyEvent { key: DomKey::Enter, .. }) => self.put("\n"),
                DomEvent::KeyDown(DomKeyEvent { key: DomKey::ArrowLeft, .. }) => self.cursor -= 1,
                DomEvent::KeyDown(DomKeyEvent { key: DomKey::Backspace, .. }) => {
                    self.cursor -= 1;
                    self.text.remove(self.cursor);
                }
                DomEvent::KeyDown(DomKeyEvent { key: DomKey::Delete, .. }) => {
                    self.text.remove(self.cursor);
                }
                DomEvent::ImePreedit { text, cursor, .. } => {
                    self.drop_composition();
                    self.put(&text);
                    self.composed = text.len();
                    assert_eq!(cursor, text.len());
                }
                DomEvent::ImeClear | DomEvent::ImeDisabled => self.drop_composition(),
                DomEvent::ImeCommit(text) => self.put(&text),
                DomEvent::KeyUp(_) => {}
                other => panic!("a text field is not told {other:?}"),
            }
        }
    }

    fn press_key(&mut self, pressed_key: BrowserKey) {
        for pressed in [true, false] {
            self.handle_input(key(pressed_key, pressed, BrowserModifiers::default()));
        }
    }

    fn surrounding_text(&self) -> (String, u32) {
        let (text, cursor, _) = field_text(&None, &self.text, self.cursor, self.cursor);
        (text, cursor)
    }
}

#[test]
fn focused_input_accepts_text_once_and_supports_editing() {
    let mut field = Field::new();
    for c in ['a', 'b'] {
        field.press_key(BrowserKey::Character(c));
        field.handle_input(BrowserInput::Text(c));
    }
    assert_eq!(field.surrounding_text().0, "ab");
    field.press_key(BrowserKey::Left);
    field.press_key(BrowserKey::Backspace);
    assert_eq!(field.surrounding_text().0, "b");
    field.press_key(BrowserKey::Delete);
    assert_eq!(field.surrounding_text().0, "");
}

#[test]
fn space_is_inserted_once_in_single_and_multiline_inputs() {
    for _ in 0..2 {
        let mut field = Field::new();
        field.handle_input(BrowserInput::Text('a'));
        for _ in 0..2 {
            field.handle_input(key(BrowserKey::Space, true, BrowserModifiers::default()));
            field.handle_input(BrowserInput::Text(' '));
            field.handle_input(key(BrowserKey::Space, false, BrowserModifiers::default()));
        }
        field.handle_input(BrowserInput::Text('b'));
        assert_eq!(field.surrounding_text().0, "a  b");
    }
}

#[test]
fn textarea_accepts_newlines_and_japanese_ime_composition() {
    let mut field = Field::new();
    field.handle_input(BrowserInput::Text('A'));
    field.press_key(BrowserKey::Enter);
    field.handle_input(BrowserInput::ImePreedit { text: "にほん".into(), cursor: 9, anchor: 9 });
    assert_eq!(field.surrounding_text().0, "A\nにほん");
    field.handle_input(BrowserInput::ImeCommit("日本語".into()));
    assert_eq!(field.surrounding_text(), (String::from("A\n日本語"), 11));
    field.handle_input(BrowserInput::ImePreedit { text: "あ".into(), cursor: 3, anchor: 3 });
    field.handle_input(BrowserInput::FocusLost);
    assert_eq!(field.surrounding_text().0, "A\n日本語");
}

#[test]
fn shortcuts_are_keys_and_no_text() {
    let mut state = InputState::new();
    let control = BrowserModifiers { control: true, ..BrowserModifiers::default() };
    assert_eq!(
        tell(&mut state, key(BrowserKey::Character('c'), true, control)),
        vec![DomEvent::KeyDown(DomKeyEvent {
            key: DomKey::Character('c'),
            code: DomCode::Unidentified,
            modifiers: control,
            text: None,
        })]
    );
    assert_eq!(tell(&mut state, BrowserInput::Text('c')), vec![]);
    assert_eq!(tell(&mut state, BrowserInput::FocusLost), vec![DomEvent::ImeDisabled]);
    assert_eq!(typed(&tell(&mut state, BrowserInput::Text('c'))), "c");
}

#[test]
fn control_characters_are_not_typed() {
    let mut state = InputState::new();
    assert_eq!(tell(&mut state, BrowserInput::Text('\r')), vec![]);
    assert_eq!(tell(&mut state, BrowserInput::Text('\u{7f}')), vec![]);
}

#[test]
fn named_keys_go_down_and_up() {
    let mut state = InputState::new();
    let event = DomKeyEvent {
        key: DomKey::Enter,
        code: DomCode::Enter,
        modifiers: BrowserModifiers::default(),
        text: None,
    };
    let none = BrowserModifiers::default();
    assert_eq!(
        tell(&mut state, key(BrowserKey::Enter, true, none)),
        vec![DomEvent::KeyDown(event)]
    );
    assert_eq!(
        tell(&mut state, key(BrowserKey::Enter, false, none)),
        vec![DomEvent::KeyUp(event)]
    );
}

#[test]
fn a_platform_may_edit_by_commands() {
    let mut state = InputState::new();
    let none = BrowserModifiers::default();
    let alt = BrowserModifiers { alt: true, ..none };
    let both = BrowserModifiers { super_key: true, ..alt };
    for (modifiers, command) in [
        (none, EditingCommand::DeleteBackward),
        (alt, EditingCommand::DeleteWordBackward),
        (both, EditingCommand::DeleteToBeginningOfLine),
    ] {
        let press = key(BrowserKey::Backspace, true, modifiers);
        assert_eq!(
            state.handle_input(true, true, press),
            Some(vec![DomEvent::Editing(command)])
        );
    }
    let release = key(BrowserKey::Backspace, false, none);
    assert!(matches!(
        state.handle_input(true, true, release).unwrap()[0],
        DomEvent::KeyUp(_)
    ));
}

#[test]
fn buttons_are_held_until_released() {
    let mut state = InputState::new();
    let (x, y) = (number(3.0), number(4.0));
    let button = |button, pressed| BrowserInput::PointerButton { button, pressed, x, y };
    let pointer = |button, buttons| DomPointerEvent { x, y, button, buttons };
    let none = HeldButtons { main: false, auxiliary: false, secondary: false };
    let main = HeldButtons { main: true, ..none };
    let both = HeldButtons { secondary: true, ..main };
    assert_eq!(
        tell(&mut state, button(BrowserMouseButton::Primary, true)),
        vec![DomEvent::PointerDown(pointer(DomButton::Main, main))]
    );
    assert_eq!(
        tell(&mut state, button(BrowserMouseButton::Secondary, true)),
        vec![DomEvent::PointerDown(pointer(DomButton::Secondary, both))]
    );
    assert_eq!(
        tell(&mut state, BrowserInput::PointerMoved { x, y }),
        vec![DomEvent::PointerMove(pointer(DomButton::Main, both))]
    );
    assert_eq!(
        tell(&mut state, button(BrowserMouseButton::Primary, false)),
        vec![DomEvent::PointerUp(pointer(
            DomButton::Main,
            HeldButtons { main: false, ..both }
        ))]
    );
    let deltas = vec![WheelDelta {
        delta_x: Real64 { bits: 0 },
        delta_y: Real64 { bits: 1.5f64.to_bits() },
    }];
    assert_eq!(
        tell(&mut state, BrowserInput::Wheel { deltas: deltas.clone(), x, y }),
        vec![DomEvent::Wheel {
            deltas,
            pointer: pointer(DomButton::Main, HeldButtons { main: false, ..both })
        }]
    );
    assert_eq!(tell(&mut state, BrowserInput::PointerExited), vec![DomEvent::ClearHover]);
}

#[test]
fn commits_clear_the_composition_first() {
    let mut state = InputState::new();
    assert_eq!(
        tell(
            &mut state,
            BrowserInput::ImePreedit { text: "にほん".into(), cursor: 9, anchor: 9 }
        ),
        vec![DomEvent::ImePreedit { text: "にほん".into(), cursor: 9, anchor: 9 }]
    );
    assert_eq!(
        tell(&mut state, BrowserInput::ImeCommit("日本語".into())),
        vec![DomEvent::ImeClear, DomEvent::ImeCommit("日本語".into())]
    );
}

#[test]
fn without_a_document_nothing_is_told() {
    let mut state = InputState::new();
    let press = key(
        BrowserKey::Enter,
        true,
        BrowserModifiers { shift: true, ..BrowserModifiers::default() },
    );
    assert_eq!(state.handle_input(false, false, press), None);
    assert_eq!(state, InputState::new());
}

#[test]
fn keys_have_values_and_places() {
    for (key, value, code) in [
        (BrowserKey::Escape, DomKey::Escape, DomCode::Escape),
        (BrowserKey::Tab, DomKey::Tab, DomCode::Tab),
        (BrowserKey::Space, DomKey::Character(' '), DomCode::Space),
        (BrowserKey::Left, DomKey::ArrowLeft, DomCode::ArrowLeft),
        (BrowserKey::Right, DomKey::ArrowRight, DomCode::ArrowRight),
        (BrowserKey::Up, DomKey::ArrowUp, DomCode::ArrowUp),
        (BrowserKey::Down, DomKey::ArrowDown, DomCode::ArrowDown),
        (BrowserKey::Home, DomKey::Home, DomCode::Home),
        (BrowserKey::End, DomKey::End, DomCode::End),
        (BrowserKey::PageUp, DomKey::PageUp, DomCode::PageUp),
        (BrowserKey::PageDown, DomKey::PageDown, DomCode::PageDown),
        (BrowserKey::Insert, DomKey::Insert, DomCode::Insert),
        (BrowserKey::Delete, DomKey::Delete, DomCode::Delete),
        (BrowserKey::Character('x'), DomKey::Character('x'), DomCode::Unidentified),
        (BrowserKey::Unknown, DomKey::Unidentified, DomCode::Unidentified),
    ] {
        assert_eq!(map_key(key), (value, code));
    }
    assert_eq!(map_mouse_button(BrowserMouseButton::Auxiliary), DomButton::Auxiliary);
}
