//! The item backing the public render-surface display-list API: one clipped
//! surface that forwards pointer input to its host.

use crate::graphics::F32Bits;
use crate::input::{
    position_of, FocusEventResult, InputEventFilterResult, InputEventResult, KeyEventResult,
    KeyboardModifiers, MouseCursor, MouseEvent, PointerEvent, PointerEventButton,
    PointerEventKind, PointerScrollEvent,
};
use vstd::prelude::*;

verus! {

/// One clipped input and display-list surface.
#[derive(Clone, Copy, Debug, PartialEq, Eq, Structural)]
pub struct RenderSurfaceItem {
    pub surface_id: i32,
    /// Bumped by the host to have the surface drawn again.
    pub frame_generation: i32,
    pub content_offset_x: F32Bits,
    pub content_offset_y: F32Bits,
    pub enabled: bool,
    pub mouse_cursor: MouseCursor,
    /// The position of the last pointer event, in item coordinates.
    pub mouse_x: F32Bits,
    pub mouse_y: F32Bits,
    /// Whether a press is held on the surface.
    pub grabbed: bool,
}

impl Default for RenderSurfaceItem {
    /// A disabled surface with id zero, at the origin, with the default cursor.
    fn default() -> (item: Self)
        ensures
            item == (RenderSurfaceItem {
                surface_id: 0,
                frame_generation: 0,
                content_offset_x: F32Bits(0),
                content_offset_y: F32Bits(0),
                enabled: false,
                mouse_cursor: MouseCursor::Default,
                mouse_x: F32Bits(0),
                mouse_y: F32Bits(0),
                grabbed: false,
            }),
    {
        RenderSurfaceItem {
            surface_id: 0,
            frame_generation: 0,
            content_offset_x: F32Bits(0),
            content_offset_y: F32Bits(0),
            enabled: false,
            mouse_cursor: MouseCursor::Default,
            mouse_x: F32Bits(0),
            mouse_y: F32Bits(0),
            grabbed: false,
        }
    }
}

/// The next thing to do with a pointer event.
#[derive(Clone, Copy, Debug, PartialEq, Eq, Structural)]
pub enum RenderSurfacePointerStep {
    /// The item has answered; the host runs the pointer handler with the
    /// pointer event, if any.
    Finished { result: InputEventResult, pointer_event: Option<PointerEvent> },
    /// The host runs the scroll handler with this event; its answer, as
    /// `handler_input_result` reads it, is the item's answer.
    CallScroll(PointerScrollEvent),
}

/// The pointer handler's event for a press, release or move.
pub open spec fn pointer_event_of(event: MouseEvent, modifiers: KeyboardModifiers) -> Option<PointerEvent> {
    match event {
        MouseEvent::Pressed { button, touch_finger_id, .. } => Some(
            PointerEvent { button, kind: PointerEventKind::Down, modifiers, touch_finger_id },
        ),
        MouseEvent::Released { button, touch_finger_id, .. } => Some(
            PointerEvent { button, kind: PointerEventKind::Up, modifiers, touch_finger_id },
        ),
        MouseEvent::Moved { touch_finger_id, .. } => Some(
            PointerEvent {
                button: PointerEventButton::Other,
                kind: PointerEventKind::Move,
                modifiers,
                touch_finger_id,
            },
        ),
        _ => None,
    }
}

impl RenderSurfaceItem {
    /// The item after taking over the position of an event that has one.
    pub open spec fn at_position_of(self, event: MouseEvent) -> Self {
        match position_of(event) {
            Some(p) => RenderSurfaceItem { mouse_x: p.x, mouse_y: p.y, ..self },
            None => self,
        }
    }

    /// Takes over the event's position and makes the pointer handler's
    /// event for a press, release or move.
    pub fn notify_pointer(&mut self, event: &MouseEvent, modifiers: KeyboardModifiers) -> (r: Option<PointerEvent>)
        ensures
            *final(self) == old(self).at_position_of(*event),
            r == pointer_event_of(*event, modifiers),
            event is Pressed ==> r == Some(
                PointerEvent {
                    button: (*event)->Pressed_button,
                    kind: PointerEventKind::Down,
                    modifiers,
                    touch_finger_id: (*event)->Pressed_touch_finger_id,
                },
            ),
            event is Released ==> r == Some(
                PointerEvent {
                    button: (*event)->Released_button,
                    kind: PointerEventKind::Up,
                    modifiers,
                    touch_finger_id: (*event)->Released_touch_finger_id,
                },
            ),
            event is Moved ==> r == Some(
                PointerEvent {
                    button: PointerEventButton::Other,
                    kind: PointerEventKind::Move,
                    modifiers,
                    touch_finger_id: (*event)->Moved_touch_finger_id,
                },
            ),
            !(event is Pressed || event is Released || event is Moved) ==> r.is_none(),
    {
        let position = match event.position() {
            Some(p) => p,
            None => {
                return None;
            },
        };
        self.mouse_x = position.x;
        self.mouse_y = position.y;
        match event {
            MouseEvent::Pressed { button, touch_finger_id, .. } => Some(
                PointerEvent {
                    button: *button,
                    kind: PointerEventKind::Down,
                    modifiers,
                    touch_finger_id: *touch_finger_id,
                },
            ),
            MouseEvent::Released { button, touch_finger_id, .. } => Some(
                PointerEvent {
                    button: *button,
                    kind: PointerEventKind::Up,
                    modifiers,
                    touch_finger_id: *touch_finger_id,
                },
            ),
            MouseEvent::Moved { touch_finger_id, .. } => Some(
                PointerEvent {
                    button: PointerEventButton::Other,
                    kind: PointerEventKind::Move,
                    modifiers,
                    touch_finger_id: *touch_finger_id,
                },
            ),
            _ => None,
        }
    }

    /// Before its children see a pointer event, an enabled surface takes the
    /// grab of every positioned event but drag-and-drop, and shows its
    /// cursor; other events only reach the children.
    pub fn input_event_filter_before_children(&self, event: &MouseEvent, cursor: &mut MouseCursor) -> (r: InputEventFilterResult)
        ensures
            (!self.enabled || event is DragMove || event is Drop) ==> r
                == InputEventFilterResult::ForwardAndIgnore && *final(cursor) == *old(cursor),
            !(!self.enabled || event is DragMove || event is Drop) && position_of(*event) is Some
                && !(event is Exit) ==> r == InputEventFilterResult::ForwardAndInterceptGrab
                && *final(cursor) == self.mouse_cursor,
            !(!self.enabled || event is DragMove || event is Drop) && !(position_of(*event) is Some
                && !(event is Exit)) ==> r == InputEventFilterResult::ForwardAndIgnore
                && *final(cursor) == *old(cursor),
    {
        let drag = match event {
            MouseEvent::DragMove { .. } | MouseEvent::Drop { .. } => true,
            _ => false,
        };
        if !self.enabled || drag {
            return InputEventFilterResult::ForwardAndIgnore;
        }
        let exit = match event {
            MouseEvent::Exit => true,
            _ => false,
        };
        if event.position().is_some() && !exit {
            *cursor = self.mouse_cursor;
            InputEventFilterResult::ForwardAndInterceptGrab
        } else {
            InputEventFilterResult::ForwardAndIgnore
        }
    }

    /// A pointer event on the surface. A disabled surface ignores it. A
    /// press grabs the pointer until the release or until the pointer
    /// leaves; moves keep the grab while it is held. Presses, releases and
    /// moves reach the pointer handler; wheel events go to the scroll
    /// handler; leaving cancels the pointer; gestures and drag-and-drop are
    /// ignored.
    pub fn input_event(&mut self, event: &MouseEvent, modifiers: KeyboardModifiers) -> (step: RenderSurfacePointerStep)
        ensures
            !old(self).enabled ==> *final(self) == *old(self) && step
                == (RenderSurfacePointerStep::Finished {
                result: InputEventResult::EventIgnored,
                pointer_event: None,
            }),
            old(self).enabled && event is Pressed ==> *final(self) == (RenderSurfaceItem {
                grabbed: true,
                ..*old(self)
            }).at_position_of(*event) && step == (RenderSurfacePointerStep::Finished {
                result: InputEventResult::GrabMouse,
                pointer_event: pointer_event_of(*event, modifiers),
            }),
            old(self).enabled && event is Released ==> *final(self) == (RenderSurfaceItem {
                grabbed: false,
                ..*old(self)
            }).at_position_of(*event) && step == (RenderSurfacePointerStep::Finished {
                result: InputEventResult::EventAccepted,
                pointer_event: pointer_event_of(*event, modifiers),
            }),
            old(self).enabled && event is Moved ==> *final(self) == old(self).at_position_of(*event)
                && step == (RenderSurfacePointerStep::Finished {
                result: if old(self).grabbed {
                    InputEventResult::GrabMouse
                } else {
                    InputEventResult::EventAccepted
                },
                pointer_event: pointer_event_of(*event, modifiers),
            }),
            old(self).enabled && event is Pressed ==> step == (RenderSurfacePointerStep::Finished {
                result: InputEventResult::GrabMouse,
                pointer_event: Some(
                    PointerEvent {
                        button: (*event)->Pressed_button,
                        kind: PointerEventKind::Down,
                        modifiers,
                        touch_finger_id: (*event)->Pressed_touch_finger_id,
                    },
                ),
            }),
            old(self).enabled && event is Released ==> step == (RenderSurfacePointerStep::Finished {
                result: InputEventResult::EventAccepted,
                pointer_event: Some(
                    PointerEvent {
                        button: (*event)->Released_button,
                        kind: PointerEventKind::Up,
                        modifiers,
                        touch_finger_id: (*event)->Released_touch_finger_id,
                    },
                ),
            }),
            old(self).enabled && event is Moved ==> step
                == (RenderSurfacePointerStep::Finished {
                result: if old(self).grabbed {
                    InputEventResult::GrabMouse
                } else {
                    InputEventResult::EventAccepted
                },
                pointer_event: Some(
                    PointerEvent {
                        button: PointerEventButton::Other,
                        kind: PointerEventKind::Move,
                        modifiers,
                        touch_finger_id: (*event)->Moved_touch_finger_id,
                    },
                ),
            }),
            old(self).enabled && event is Wheel ==> (*event matches MouseEvent::Wheel {
                delta_x,
                delta_y,
                ..
            } && *final(self) == *old(self) && step == RenderSurfacePointerStep::CallScroll(
                PointerScrollEvent { delta_x, delta_y, modifiers },
            )),
            old(self).enabled && event is Exit ==> *final(self) == (RenderSurfaceItem {
                grabbed: false,
                ..*old(self)
            }) && step == (RenderSurfacePointerStep::Finished {
                result: InputEventResult::EventAccepted,
                pointer_event: Some(
                    PointerEvent {
                        button: PointerEventButton::Other,
                        kind: PointerEventKind::Cancel,
                        modifiers,
                        touch_finger_id: 0,
                    },
                ),
            }),
            old(self).enabled && (event is PinchGesture || event is RotationGesture
                || event is DragMove || event is Drop) ==> *final(self) == *old(self) && step
                == (RenderSurfacePointerStep::Finished {
                result: InputEventResult::EventIgnored,
                pointer_event: None,
            }),
    {
        if !self.enabled {
            return RenderSurfacePointerStep::Finished {
                result: InputEventResult::EventIgnored,
                pointer_event: None,
            };
        }
        match event {
            MouseEvent::Pressed { .. } => {
                self.grabbed = true;
                let pointer_event = self.notify_pointer(event, modifiers);
                RenderSurfacePointerStep::Finished {
                    result: InputEventResult::GrabMouse,
                    pointer_event,
                }
            },
            MouseEvent::Released { .. } => {
                self.grabbed = false;
                let pointer_event = self.notify_pointer(event, modifiers);
                RenderSurfacePointerStep::Finished {
                    result: InputEventResult::EventAccepted,
                    pointer_event,
                }
            },
            MouseEvent::Moved { .. } => {
                let pointer_event = self.notify_pointer(event, modifiers);
                RenderSurfacePointerStep::Finished {
                    result: if self.grabbed {
                        InputEventResult::GrabMouse
                    } else {
                        InputEventResult::EventAccepted
                    },
                    pointer_event,
                }
            },
            MouseEvent::Wheel { delta_x, delta_y, .. } => RenderSurfacePointerStep::CallScroll(
                PointerScrollEvent { delta_x: *delta_x, delta_y: *delta_y, modifiers },
            ),
            MouseEvent::Exit => {
                self.grabbed = false;
                RenderSurfacePointerStep::Finished {
                    result: InputEventResult::EventAccepted,
                    pointer_event: Some(
                        PointerEvent {
                            button: PointerEventButton::Other,
                            kind: PointerEventKind::Cancel,
                            modifiers,
                            touch_finger_id: 0,
                        },
                    ),
                }
            },
            MouseEvent::PinchGesture { .. } | MouseEvent::RotationGesture { .. }
            | MouseEvent::DragMove { .. } | MouseEvent::Drop { .. } => {
                RenderSurfacePointerStep::Finished {
                    result: InputEventResult::EventIgnored,
                    pointer_event: None,
                }
            },
        }
    }

    /// The surface does not capture key events before its children.
    pub fn capture_key_event(&self) -> (r: KeyEventResult)
        ensures
            r == KeyEventResult::EventIgnored,
    {
        KeyEventResult::EventIgnored
    }

    /// The surface takes no key events.
    pub fn key_event(&self) -> (r: KeyEventResult)
        ensures
            r == KeyEventResult::EventIgnored,
    {
        KeyEventResult::EventIgnored
    }

    /// The surface never takes the focus.
    pub fn focus_event(&self) -> (r: FocusEventResult)
        ensures
            r == FocusEventResult::FocusIgnored,
    {
        FocusEventResult::FocusIgnored
    }

    /// The surface clips its children.
    pub fn clips_children(&self) -> (r: bool)
        ensures
            r,
    {
        true
    }
}

/// Press, release and move reach the host as Down, Up and Move pointer
/// events, carrying the event's button (none for a move), touch finger and
/// the current modifiers; no other event makes a pointer event.
pub proof fn lemma_pointer_event_kinds(event: MouseEvent, modifiers: KeyboardModifiers)
    ensures
        event is Pressed ==> (pointer_event_of(event, modifiers) matches Some(pe) && pe.kind
            == PointerEventKind::Down && pe.button == event->Pressed_button && pe.touch_finger_id
            == event->Pressed_touch_finger_id && pe.modifiers == modifiers),
        event is Released ==> (pointer_event_of(event, modifiers) matches Some(pe) && pe.kind
            == PointerEventKind::Up && pe.button == event->Released_button && pe.touch_finger_id
            == event->Released_touch_finger_id && pe.modifiers == modifiers),
        event is Moved ==> (pointer_event_of(event, modifiers) matches Some(pe) && pe.kind
            == PointerEventKind::Move && pe.button == PointerEventButton::Other
            && pe.touch_finger_id == event->Moved_touch_finger_id && pe.modifiers == modifiers),
        !(event is Pressed || event is Released || event is Moved) ==> pointer_event_of(
            event,
            modifiers,
        ).is_none(),
{
}

} // verus!
