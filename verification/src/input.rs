//! Input events as the items of this library receive them, and the results
//! they answer with.

use crate::graphics::F32Bits;
use core::ops::Range;
use vstd::prelude::*;

verus! {

/// The state of the keyboard modifiers when an event was produced.
#[derive(Clone, Copy, Debug, PartialEq, Eq, Structural)]
pub struct KeyboardModifiers {
    pub alt: bool,
    pub control: bool,
    pub meta: bool,
    pub shift: bool,
}

impl Default for KeyboardModifiers {
    /// No modifier held.
    fn default() -> (m: Self)
        ensures
            !m.alt && !m.control && !m.meta && !m.shift,
    {
        KeyboardModifiers { alt: false, control: false, meta: false, shift: false }
    }
}

/// A key event as handed to the key handlers of an item.
#[derive(Clone, Debug)]
pub struct KeyEvent {
    /// The text that the key produces.
    pub text: String,
    pub modifiers: KeyboardModifiers,
    pub repeat: bool,
}

impl Default for KeyEvent {
    /// No text, no modifier, not a repeat.
    fn default() -> (e: Self)
        ensures
            e.text@.len() == 0,
            !e.modifiers.alt && !e.modifiers.control && !e.modifiers.meta && !e.modifiers.shift,
            !e.repeat,
    {
        KeyEvent { text: String::new(), modifiers: KeyboardModifiers::default(), repeat: false }
    }
}

/// What a key event reports.
#[derive(Clone, Copy, Debug, PartialEq, Eq, Structural)]
pub enum KeyEventType {
    KeyPressed,
    KeyReleased,
    /// An input method updated its composition (pre-edit) text.
    UpdateComposition,
    /// An input method committed its composition.
    CommitComposition,
}

/// A key or input-method event.
#[derive(Debug)]
pub struct InternalKeyEvent {
    pub key_event: KeyEvent,
    pub event_type: KeyEventType,
    /// The composition text of an `UpdateComposition` event.
    pub preedit_text: String,
    /// The selection within the composition text.
    pub preedit_selection: Option<Range<i32>>,
    /// The range of the surrounding text that the composition replaces.
    pub replacement_range: Option<Range<i32>>,
}

impl Default for InternalKeyEvent {
    /// A key press without text.
    fn default() -> (e: Self)
        ensures
            e.key_event.text@.len() == 0,
            e.key_event.modifiers == (KeyboardModifiers {
                alt: false,
                control: false,
                meta: false,
                shift: false,
            }),
            !e.key_event.repeat,
            e.event_type == KeyEventType::KeyPressed,
            e.preedit_text@.len() == 0,
            e.preedit_selection.is_none(),
            e.replacement_range.is_none(),
    {
        InternalKeyEvent {
            key_event: KeyEvent::default(),
            event_type: KeyEventType::KeyPressed,
            preedit_text: String::new(),
            preedit_selection: None,
            replacement_range: None,
        }
    }
}

/// The platform's standard shortcuts.
#[derive(Clone, Copy, Debug, PartialEq, Eq, Structural)]
pub enum StandardShortcut {
    Copy,
    Cut,
    Paste,
    SelectAll,
    Find,
    Save,
    Print,
    Undo,
    Redo,
    Refresh,
}

/// What a user handler answers about an event.
#[derive(Clone, Copy, Debug, PartialEq, Eq, Structural)]
pub enum EventResult {
    Reject,
    Accept,
}

/// What an item answers about a key event.
#[derive(Clone, Copy, Debug, PartialEq, Eq, Structural)]
pub enum KeyEventResult {
    EventAccepted,
    EventIgnored,
}

/// What an item answers about a focus event.
#[derive(Clone, Copy, Debug, PartialEq, Eq, Structural)]
pub enum FocusEventResult {
    FocusAccepted,
    FocusIgnored,
}

/// What an item answers about a pointer event.
#[derive(Clone, Copy, Debug, PartialEq, Eq, Structural)]
pub enum InputEventResult {
    EventAccepted,
    EventIgnored,
    /// Accept the event and receive the following pointer events.
    GrabMouse,
}

/// What an item decides about a pointer event before its children see it.
#[derive(Clone, Copy, Debug, PartialEq, Eq, Structural)]
pub enum InputEventFilterResult {
    /// Forward the event to the children, then to this item.
    ForwardEvent,
    /// Forward the event to the children only.
    ForwardAndIgnore,
    /// Forward the event to the children, and take the grab from them.
    ForwardAndInterceptGrab,
}

/// Why an item gains or loses the keyboard focus.
#[derive(Clone, Copy, Debug, PartialEq, Eq, Structural)]
pub enum FocusReason {
    Programmatic,
    TabNavigation,
    PointerClick,
    PopupActivation,
    WindowActivation,
}

/// A change of keyboard focus.
#[derive(Clone, Copy, Debug, PartialEq, Eq, Structural)]
pub enum FocusEvent {
    FocusIn(FocusReason),
    FocusOut(FocusReason),
}

/// The button of a pointer event.
#[derive(Clone, Copy, Debug, PartialEq, Eq, Structural)]
pub enum PointerEventButton {
    Other,
    Left,
    Right,
    Middle,
    Back,
    Forward,
}

/// What a pointer event reports.
#[derive(Clone, Copy, Debug, PartialEq, Eq, Structural)]
pub enum PointerEventKind {
    Cancel,
    Down,
    Up,
    Move,
}

/// A pointer event as handed to the pointer handler of an item.
#[derive(Clone, Copy, Debug, PartialEq, Eq, Structural)]
pub struct PointerEvent {
    pub button: PointerEventButton,
    pub kind: PointerEventKind,
    pub modifiers: KeyboardModifiers,
    pub touch_finger_id: u64,
}

/// A scroll event as handed to the scroll handler of an item; the deltas
/// are the bits of logical lengths.
#[derive(Clone, Copy, Debug, PartialEq, Eq, Structural)]
pub struct PointerScrollEvent {
    pub delta_x: F32Bits,
    pub delta_y: F32Bits,
    pub modifiers: KeyboardModifiers,
}

/// A point in logical coordinates, as the bits of two logical lengths.
#[derive(Clone, Copy, Debug, PartialEq, Eq, Structural)]
pub struct LogicalPoint {
    pub x: F32Bits,
    pub y: F32Bits,
}

/// A pointer event as items receive it.
#[derive(Clone, Copy, Debug, PartialEq, Eq, Structural)]
pub enum MouseEvent {
    Pressed {
        position: LogicalPoint,
        button: PointerEventButton,
        click_count: u8,
        touch_finger_id: u64,
    },
    Released {
        position: LogicalPoint,
        button: PointerEventButton,
        click_count: u8,
        touch_finger_id: u64,
    },
    Moved { position: LogicalPoint, touch_finger_id: u64 },
    Wheel { position: LogicalPoint, delta_x: F32Bits, delta_y: F32Bits },
    DragMove { position: LogicalPoint },
    Drop { position: LogicalPoint },
    PinchGesture { position: LogicalPoint, delta: F32Bits },
    RotationGesture { position: LogicalPoint, delta: F32Bits },
    /// The pointer left the item.
    Exit,
}

/// Where an event happened; every event but `Exit` has a position.
pub open spec fn position_of(event: MouseEvent) -> Option<LogicalPoint> {
    match event {
        MouseEvent::Pressed { position, .. } => Some(position),
        MouseEvent::Released { position, .. } => Some(position),
        MouseEvent::Moved { position, .. } => Some(position),
        MouseEvent::Wheel { position, .. } => Some(position),
        MouseEvent::DragMove { position } => Some(position),
        MouseEvent::Drop { position } => Some(position),
        MouseEvent::PinchGesture { position, .. } => Some(position),
        MouseEvent::RotationGesture { position, .. } => Some(position),
        MouseEvent::Exit => None,
    }
}

impl MouseEvent {
    /// Where the event happened, if it has a position.
    pub fn position(&self) -> (p: Option<LogicalPoint>)
        ensures
            p == position_of(*self),
    {
        match self {
            MouseEvent::Pressed { position, .. } => Some(*position),
            MouseEvent::Released { position, .. } => Some(*position),
            MouseEvent::Moved { position, .. } => Some(*position),
            MouseEvent::Wheel { position, .. } => Some(*position),
            MouseEvent::DragMove { position } => Some(*position),
            MouseEvent::Drop { position } => Some(*position),
            MouseEvent::PinchGesture { position, .. } => Some(*position),
            MouseEvent::RotationGesture { position, .. } => Some(*position),
            MouseEvent::Exit => None,
        }
    }
}

/// The shape of the mouse cursor over an item.
#[derive(Clone, Copy, Debug, PartialEq, Eq, Structural)]
pub enum MouseCursor {
    Default,
    /// No cursor is shown.
    NoCursor,
    Help,
    Pointer,
    Progress,
    Wait,
    Crosshair,
    Text,
    Alias,
    Copy,
    Move,
    NoDrop,
    NotAllowed,
    Grab,
    Grabbing,
    ColResize,
    RowResize,
    NResize,
    EResize,
    SResize,
    WResize,
    NeResize,
    NwResize,
    SeResize,
    SwResize,
    EwResize,
    NsResize,
    NeswResize,
    NwseResize,
}

/// The key result that a user handler's answer stands for.
pub fn handler_key_result(answer: EventResult) -> (r: KeyEventResult)
    ensures
        r == (if answer == EventResult::Accept {
            KeyEventResult::EventAccepted
        } else {
            KeyEventResult::EventIgnored
        }),
{
    match answer {
        EventResult::Accept => KeyEventResult::EventAccepted,
        EventResult::Reject => KeyEventResult::EventIgnored,
    }
}

/// The pointer result that a user handler's answer stands for.
pub fn handler_input_result(answer: EventResult) -> (r: InputEventResult)
    ensures
        r == (if answer == EventResult::Accept {
            InputEventResult::EventAccepted
        } else {
            InputEventResult::EventIgnored
        }),
{
    match answer {
        EventResult::Accept => InputEventResult::EventAccepted,
        EventResult::Reject => InputEventResult::EventIgnored,
    }
}

} // verus!
