//! What the platform text-input bridges ask of their host: handlers to run,
//! input-method requests to send, and the text state to report.

use crate::input::{FocusEventResult, KeyEventResult};
use vstd::prelude::*;
use vstd::utf8::encode_utf8;

verus! {

/// A user handler of a text-input item that a step asks the host to run.
#[derive(Debug)]
pub enum TextInputNotification {
    Nothing,
    CopyRequested,
    CutRequested,
    /// Read the default clipboard and, where it holds text, hand it to the
    /// paste handler.
    PasteRequested,
    PreeditUpdated(String),
    CompositionCancelled,
    CompositionCommitted(String),
    /// Printable key text that no key handler accepted.
    TextInput(String),
}

/// The next thing to do with a key event.
#[derive(Debug)]
pub enum KeyEventStep {
    /// The item has answered; the host runs the notification, if any.
    Finished { result: KeyEventResult, notification: TextInputNotification },
    /// The host runs the key-pressed handler with the key event and hands its
    /// answer back to the item.
    CallKeyPressed,
    /// The host runs the key-released handler with the key event; its answer
    /// is the item's answer.
    CallKeyReleased,
}

/// A request to the window's platform input method.
#[derive(Clone, Copy, Debug, PartialEq, Eq, Structural)]
pub enum InputMethodAction {
    Nothing,
    /// Enable the input method with the item's current input-method state.
    Enable,
    /// Send the item's current input-method state.
    Update,
    /// Disable the input method.
    Disable,
}

/// What a focus event asks of the host, in this order: tell the window
/// whether a text input has the focus, run the notification (a cancelled
/// composition), then send the input-method request.
#[derive(Debug)]
pub struct FocusStep {
    pub result: FocusEventResult,
    pub text_input_focused: Option<bool>,
    pub request: InputMethodAction,
    pub notification: TextInputNotification,
}

/// What keeping the input method in step asks of the host, in this order:
/// run the notification (a cancelled composition), tell the window whether
/// a text input has the focus, then send the input-method request.
#[derive(Debug)]
pub struct InputMethodStep {
    pub text_input_focused: Option<bool>,
    pub request: InputMethodAction,
    pub notification: TextInputNotification,
}

/// The kind of text an input method is asked to produce.
#[derive(Clone, Copy, Debug, PartialEq, Eq, Structural)]
pub enum InputType {
    Text,
    Password,
    Number,
    Decimal,
}

/// Hints for the input method (such as "no auto-correction"), as the flag
/// bits the item's host sets; the item passes them through unchanged.
#[derive(Clone, Copy, Debug, PartialEq, Eq, Structural)]
pub struct InputMethodHints(pub u32);

/// The text part of the state that an item reports to the input method.
#[derive(Debug)]
pub struct ImeTextState {
    pub text: String,
    /// The cursor, as a byte offset into `text`.
    pub cursor_position: usize,
    /// The other end of the selection, where there is a selection.
    pub anchor_position: Option<usize>,
    pub preedit_text: String,
    pub preedit_offset: usize,
    /// Always plain text for the text-input bridges.
    pub input_type: InputType,
    /// The hints of an item that has them.
    pub input_method_hints: Option<InputMethodHints>,
}

/// The length of a text in UTF-8 bytes.
pub open spec fn utf8_len(text: Seq<char>) -> int {
    encode_utf8(text).len() as int
}

/// An offset clamped to `0..=len`.
pub open spec fn clamp_offset(offset: i32, len: int) -> int {
    if offset < 0 {
        0
    } else if offset > len {
        len
    } else {
        offset as int
    }
}

/// The input-method text state for a text, cursor, anchor and composition:
/// offsets are clamped to the text's UTF-8 length, the composition sits at
/// the cursor, an anchor at the cursor means that there is no selection,
/// the input type is plain text and the hints are passed through.
pub open spec fn ime_text_state_spec(text: String, cursor_offset: i32, anchor_offset: i32, preedit_text: String, input_method_hints: Option<InputMethodHints>) -> ImeTextState {
    let cursor = clamp_offset(cursor_offset, utf8_len(text@));
    let anchor = clamp_offset(anchor_offset, utf8_len(text@));
    ImeTextState {
        text,
        cursor_position: cursor as usize,
        anchor_position: if anchor != cursor {
            Some(anchor as usize)
        } else {
            None
        },
        preedit_text,
        preedit_offset: cursor as usize,
        input_type: InputType::Text,
        input_method_hints,
    }
}

/// Computes `ime_text_state_spec`.
pub fn ime_text_state(text: &String, cursor_offset: i32, anchor_offset: i32, preedit_text: &String, input_method_hints: Option<InputMethodHints>) -> (s: ImeTextState)
    requires
        utf8_len(text@) <= i32::MAX,
    ensures
        s == ime_text_state_spec(*text, cursor_offset, anchor_offset, *preedit_text,
            input_method_hints),
{
    let len = text.as_str().len();
    let max = len as i32;
    let cursor: usize = if cursor_offset < 0 {
        0
    } else if cursor_offset > max {
        len
    } else {
        cursor_offset as usize
    };
    let anchor: usize = if anchor_offset < 0 {
        0
    } else if anchor_offset > max {
        len
    } else {
        anchor_offset as usize
    };
    ImeTextState {
        text: text.clone(),
        cursor_position: cursor,
        anchor_position: if anchor != cursor {
            Some(anchor)
        } else {
            None
        },
        preedit_text: preedit_text.clone(),
        preedit_offset: cursor,
        input_type: InputType::Text,
        input_method_hints,
    }
}

/// The start of a range, or `default` where there is none.
pub open spec fn range_start_or(range: Option<core::ops::Range<i32>>, default: i32) -> i32 {
    match range {
        Some(r) => r.start,
        None => default,
    }
}

/// The end of a range, or `default` where there is none.
pub open spec fn range_end_or(range: Option<core::ops::Range<i32>>, default: i32) -> i32 {
    match range {
        Some(r) => r.end,
        None => default,
    }
}

/// The bounds of a range, or `default..default` where there is none.
pub fn range_or(range: &Option<core::ops::Range<i32>>, default: i32) -> (r: (i32, i32))
    ensures
        r == (range_start_or(*range, default), range_end_or(*range, default)),
{
    match range {
        Some(r) => (r.start, r.end),
        None => (default, default),
    }
}

} // verus!
