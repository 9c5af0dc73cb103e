//! The boundary between the browser's chrome and its engine: the state that
//! an engine shows and the input that it takes.

use crate::scalar::{Real32, Real64};
use crate::text::same_text;
use vstd::prelude::*;

pub mod blitz;
pub mod engine;
pub mod fonts;
pub mod frame;
pub mod history;
pub mod ime;
pub mod input;
pub mod mailbox;
pub mod prefetch;
pub mod worker;

verus! {

/// Current top-level document loading state.
#[derive(Debug, PartialEq, Eq)]
pub enum LoadState {
    /// No top-level navigation is active.
    Idle,
    /// A top-level document is being fetched.
    Loading,
    /// The current top-level document loaded successfully.
    Ready,
    /// The current top-level document could not be loaded completely.
    Failed(String),
}

impl LoadState {
    /// The text of the status label.
    pub open spec fn label_text(self) -> Seq<char> {
        match self {
            LoadState::Idle => "Idle"@,
            LoadState::Loading => "Loading…"@,
            LoadState::Ready => "Ready"@,
            LoadState::Failed(message) => "Failed: "@ + message@,
        }
    }

    /// Return a concise user-facing status label.
    pub fn label(&self) -> (result: String)
        ensures
            result@ == self.label_text(),
    {
        let mut result = String::new();
        match self {
            LoadState::Idle => result.push_str("Idle"),
            LoadState::Loading => result.push_str("Loading…"),
            LoadState::Ready => result.push_str("Ready"),
            LoadState::Failed(message) => {
                result.push_str("Failed: ");
                result.push_str(message.as_str());
            },
        }
        result
    }

    /// Whether two states are the same state with the same message.
    pub open spec fn agrees(self, other: LoadState) -> bool {
        match (self, other) {
            (LoadState::Idle, LoadState::Idle) => true,
            (LoadState::Loading, LoadState::Loading) => true,
            (LoadState::Ready, LoadState::Ready) => true,
            (LoadState::Failed(left), LoadState::Failed(right)) => left@ == right@,
            _ => false,
        }
    }

    /// Whether two states are the same state with the same message.
    pub fn same(&self, other: &LoadState) -> (result: bool)
        ensures
            result == self.agrees(*other),
    {
        match (self, other) {
            (LoadState::Idle, LoadState::Idle) => true,
            (LoadState::Loading, LoadState::Loading) => true,
            (LoadState::Ready, LoadState::Ready) => true,
            (LoadState::Failed(left), LoadState::Failed(right)) => same_text(
                left.as_str(),
                right.as_str(),
            ),
            _ => false,
        }
    }
}

impl Clone for LoadState {
    fn clone(&self) -> (result: LoadState)
        ensures
            result == *self,
    {
        match self {
            LoadState::Idle => LoadState::Idle,
            LoadState::Loading => LoadState::Loading,
            LoadState::Ready => LoadState::Ready,
            LoadState::Failed(message) => LoadState::Failed(message.clone()),
        }
    }
}

/// The focused editable control, as an input method needs to know it.
#[derive(Debug, PartialEq)]
pub struct BrowserTextInput {
    /// Left, top, width and height of the caret, in viewport CSS pixels.
    pub cursor_rect: [Real32; 4],
    /// The text around the caret.
    pub surrounding_text: String,
    /// The caret, as a byte position in the surrounding text.
    pub cursor_byte: u32,
    /// The other end of the selection, as a byte position in the surrounding
    /// text.
    pub anchor_byte: u32,
}

impl BrowserTextInput {
    /// Whether two controls look the same to an input method.
    pub open spec fn agrees(self, other: BrowserTextInput) -> bool {
        &&& forall|i: int|
            0 <= i < 4 ==> (#[trigger] self.cursor_rect@[i]).equals(other.cursor_rect@[i])
        &&& self.surrounding_text@ == other.surrounding_text@
        &&& self.cursor_byte == other.cursor_byte
        &&& self.anchor_byte == other.anchor_byte
    }

    /// Whether two controls look the same to an input method.
    pub fn same(&self, other: &BrowserTextInput) -> (result: bool)
        ensures
            result == self.agrees(*other),
    {
        let mut i: usize = 0;
        while i < 4
            invariant
                i <= 4,
                forall|j: int|
                    0 <= j < i ==> (#[trigger] self.cursor_rect@[j]).equals(
                        other.cursor_rect@[j],
                    ),
            decreases 4 - i,
        {
            if self.cursor_rect[i] != other.cursor_rect[i] {
                assert(!self.cursor_rect@[i as int].equals(other.cursor_rect@[i as int]));
                return false;
            }
            i += 1;
        }
        same_text(self.surrounding_text.as_str(), other.surrounding_text.as_str())
            && self.cursor_byte == other.cursor_byte && self.anchor_byte == other.anchor_byte
    }
}

impl Clone for BrowserTextInput {
    fn clone(&self) -> (result: BrowserTextInput)
        ensures
            result == *self,
    {
        BrowserTextInput {
            cursor_rect: self.cursor_rect,
            surrounding_text: self.surrounding_text.clone(),
            cursor_byte: self.cursor_byte,
            anchor_byte: self.anchor_byte,
        }
    }
}

/// Browser state exposed to chrome without leaking engine-specific types.
#[derive(Debug, PartialEq)]
pub struct BrowserSnapshot {
    /// Human-readable backend name.
    pub backend_name: &'static str,
    /// Current or pending top-level URL.
    pub url: String,
    /// Current document title.
    pub title: String,
    /// Current loading state.
    pub load_state: LoadState,
    /// Whether backward navigation is currently available.
    pub can_go_back: bool,
    /// Whether forward navigation is currently available.
    pub can_go_forward: bool,
    /// IME state of the page's focused editable control, in viewport CSS pixels.
    pub text_input: Option<BrowserTextInput>,
}

/// Whether two optional controls look the same to an input method.
pub open spec fn text_inputs_agree(
    left: Option<BrowserTextInput>,
    right: Option<BrowserTextInput>,
) -> bool {
    match (left, right) {
        (Some(a), Some(b)) => a.agrees(b),
        (None, None) => true,
        _ => false,
    }
}

/// Whether two optional controls look the same to an input method.
pub fn same_text_inputs(
    left: &Option<BrowserTextInput>,
    right: &Option<BrowserTextInput>,
) -> (result: bool)
    ensures
        result == text_inputs_agree(*left, *right),
{
    match (left, right) {
        (Some(a), Some(b)) => a.same(b),
        (None, None) => true,
        _ => false,
    }
}

impl BrowserSnapshot {
    /// Whether two snapshots show the same state.
    pub open spec fn agrees(self, other: BrowserSnapshot) -> bool {
        &&& self.backend_name@ == other.backend_name@
        &&& self.url@ == other.url@
        &&& self.title@ == other.title@
        &&& self.load_state.agrees(other.load_state)
        &&& self.can_go_back == other.can_go_back
        &&& self.can_go_forward == other.can_go_forward
        &&& text_inputs_agree(self.text_input, other.text_input)
    }

    /// Whether two snapshots show the same state.
    pub fn same(&self, other: &BrowserSnapshot) -> (result: bool)
        ensures
            result == self.agrees(*other),
    {
        same_text(self.backend_name, other.backend_name) && same_text(
            self.url.as_str(),
            other.url.as_str(),
        ) && same_text(self.title.as_str(), other.title.as_str()) && self.load_state.same(
            &other.load_state,
        ) && self.can_go_back == other.can_go_back && self.can_go_forward == other.can_go_forward
            && same_text_inputs(&self.text_input, &other.text_input)
    }
}

impl Clone for BrowserSnapshot {
    fn clone(&self) -> (result: BrowserSnapshot)
        ensures
            result == *self,
    {
        BrowserSnapshot {
            backend_name: self.backend_name,
            url: self.url.clone(),
            title: self.title.clone(),
            load_state: self.load_state.clone(),
            can_go_back: self.can_go_back,
            can_go_forward: self.can_go_forward,
            text_input: match &self.text_input {
                Some(input) => Some(input.clone()),
                None => None,
            },
        }
    }
}

/// Mouse buttons understood by browser backends.
#[derive(Clone, Copy, Debug, PartialEq, Eq, Structural)]
pub enum BrowserMouseButton {
    /// Primary button.
    Primary,
    /// Middle or auxiliary button.
    Auxiliary,
    /// Secondary button.
    Secondary,
}

/// Backend-neutral keyboard key.
#[derive(Clone, Copy, Debug, PartialEq, Eq, Structural)]
pub enum BrowserKey {
    Escape,
    Enter,
    Tab,
    Backspace,
    Space,
    Left,
    Right,
    Up,
    Down,
    Home,
    End,
    PageUp,
    PageDown,
    Insert,
    Delete,
    Character(char),
    Unknown,
}

/// Modifier state accompanying a backend-neutral keyboard event.
#[derive(Clone, Copy, Debug, PartialEq, Eq, Structural)]
pub struct BrowserModifiers {
    pub shift: bool,
    pub control: bool,
    pub alt: bool,
    pub super_key: bool,
}

impl BrowserModifiers {
    /// No modifier held down.
    pub open spec fn none() -> BrowserModifiers {
        BrowserModifiers { shift: false, control: false, alt: false, super_key: false }
    }
}

impl Default for BrowserModifiers {
    fn default() -> (result: BrowserModifiers)
        ensures
            result == BrowserModifiers::none(),
    {
        BrowserModifiers { shift: false, control: false, alt: false, super_key: false }
    }
}

/// One turn of the wheel, in CSS pixels.
#[derive(Clone, Copy, Debug, PartialEq, Eq, Structural)]
pub struct WheelDelta {
    pub delta_x: Real64,
    pub delta_y: Real64,
}

/// Input delivered to the embedded web view.
#[derive(Clone, Debug, PartialEq)]
pub enum BrowserInput {
    PointerMoved { x: Real32, y: Real32 },
    PointerExited,
    PointerButton { button: BrowserMouseButton, pressed: bool, x: Real32, y: Real32 },
    /// Turns of the wheel at one place, in the order in which they came; the
    /// page scrolls by their sum, added up in that order.
    Wheel { deltas: Vec<WheelDelta>, x: Real32, y: Real32 },
    Key { key: BrowserKey, pressed: bool, modifiers: BrowserModifiers },
    Text(char),
    ImePreedit { text: String, cursor: usize, anchor: usize },
    ImeCommit(String),
    FocusLost,
}

/// Error returned when a browser backend rejects an operation.
#[derive(Debug, PartialEq, Eq)]
pub struct BackendError(String);

impl BackendError {
    /// The message of the error.
    pub closed spec fn message_text(self) -> Seq<char> {
        self.0@
    }

    /// Create a backend error with the supplied message.
    pub fn new(message: &str) -> (result: BackendError)
        ensures
            result.message_text() == message@,
    {
        BackendError(crate::text::copy_of(message))
    }

    /// The message of the error.
    pub fn message(&self) -> (result: String)
        ensures
            result@ == self.message_text(),
    {
        self.0.clone()
    }
}

impl Clone for BackendError {
    fn clone(&self) -> (result: BackendError)
        ensures
            result == *self,
    {
        BackendError(self.0.clone())
    }
}

/// The label of a load that failed gives the reason; the labels of the other
/// states are fixed.
pub proof fn labels_name_the_state(message: String)
    ensures
        LoadState::Failed(message).label_text() == "Failed: "@ + message@,
        LoadState::Idle.label_text() == "Idle"@,
        LoadState::Loading.label_text() == "Loading…"@,
        LoadState::Ready.label_text() == "Ready"@,
{
}

/// Two states of a load agree exactly if they are of the same kind, and two
/// failures only if they give the same reason.
pub proof fn load_states_agree_by_kind_and_reason(first: LoadState, second: LoadState)
    ensures
        first.agrees(second) <==> {
            &&& first is Idle <==> second is Idle
            &&& first is Loading <==> second is Loading
            &&& first is Ready <==> second is Ready
            &&& first is Failed && second is Failed ==> first->Failed_0@ == second->Failed_0@
        },
        first.agrees(second) ==> first.label_text() == second.label_text(),
{
}

/// No change of a state goes unnoticed: snapshots agree only if every part of
/// what they show is the same.
pub proof fn snapshots_agree_in_every_part(first: BrowserSnapshot, second: BrowserSnapshot)
    ensures
        first.agrees(second) ==> {
            &&& first.backend_name@ == second.backend_name@
            &&& first.url@ == second.url@
            &&& first.title@ == second.title@
            &&& first.load_state.agrees(second.load_state)
            &&& first.can_go_back == second.can_go_back
            &&& first.can_go_forward == second.can_go_forward
            &&& first.text_input is Some <==> second.text_input is Some
            &&& first.text_input matches Some(left) ==> {
                let right = second.text_input->0;
                &&& left.surrounding_text@ == right.surrounding_text@
                &&& left.cursor_byte == right.cursor_byte
                &&& left.anchor_byte == right.anchor_byte
                &&& forall|i: int|
                    0 <= i < 4 ==> (#[trigger] left.cursor_rect@[i]).equals(
                        right.cursor_rect@[i],
                    )
            }
        },
{
}

/// A snapshot without a focused control agrees with itself: nothing is news that
/// has not changed.
pub proof fn unchanged_snapshots_agree(snapshot: BrowserSnapshot, other: BrowserSnapshot)
    requires
        snapshot.backend_name@ == other.backend_name@,
        snapshot.url@ == other.url@,
        snapshot.title@ == other.title@,
        snapshot.load_state == other.load_state,
        snapshot.can_go_back == other.can_go_back,
        snapshot.can_go_forward == other.can_go_forward,
        snapshot.text_input is None,
        other.text_input is None,
    ensures
        snapshot.agrees(other),
{
}

/// Two focused controls with the same caret, text and selection look the same.
pub proof fn unchanged_controls_agree(first: BrowserTextInput, second: BrowserTextInput)
    requires
        first.surrounding_text@ == second.surrounding_text@,
        first.cursor_byte == second.cursor_byte,
        first.anchor_byte == second.anchor_byte,
        forall|i: int|
            0 <= i < 4 ==> (#[trigger] first.cursor_rect@[i]).equals(second.cursor_rect@[i]),
    ensures
        text_inputs_agree(Some(first), Some(second)),
{
}

} // verus!
