//! The interaction state of buttons: hover and click handling of the
//! registered button component, and the press, release and hover logic of
//! the rich button widget.

use vstd::prelude::*;
use crate::utils::text::text_eq;

verus! {

/// The messages a registered button receives; each names the component it
/// is meant for.
#[derive(Clone, Debug)]
pub enum ButtonMessageKind {
    MouseOver(String),
    MouseOut(String),
    Clicked(String),
}

/// What a registered button does after a message.
#[derive(Debug, PartialEq, Eq, Structural)]
pub enum ButtonAction {
    /// Nothing.
    Nothing,
    /// Emit the button's click message.
    Click,
}

/// The state of a registered button: its component id, whether it has a
/// click handler, whether it is disabled and whether it is hovered.
#[derive(Debug)]
pub struct ButtonState {
    pub component_id: String,
    pub has_on_click: bool,
    pub disabled: bool,
    pub hovered: bool,
}

impl ButtonState {
    /// Handles a message: a message for another component changes nothing;
    /// hovering and leaving set the hover flag; a click emits the click
    /// message when the button has a handler.
    pub fn update(&mut self, message: &ButtonMessageKind) -> (r: ButtonAction)
        ensures
            final(self).component_id == old(self).component_id,
            final(self).has_on_click == old(self).has_on_click,
            final(self).disabled == old(self).disabled,
            match message {
                ButtonMessageKind::MouseOver(id) => {
                    &&& final(self).hovered == (old(self).hovered || id@ == old(self).component_id@)
                    &&& r == ButtonAction::Nothing
                },
                ButtonMessageKind::MouseOut(id) => {
                    &&& final(self).hovered == (old(self).hovered && id@ != old(self).component_id@)
                    &&& r == ButtonAction::Nothing
                },
                ButtonMessageKind::Clicked(id) => {
                    &&& final(self).hovered == old(self).hovered
                    &&& r == if id@ == old(self).component_id@ && old(self).has_on_click {
                        ButtonAction::Click
                    } else {
                        ButtonAction::Nothing
                    }
                },
            },
    {
        match message {
            ButtonMessageKind::MouseOver(id) => {
                if text_eq(self.component_id.as_str(), id.as_str()) {
                    self.hovered = true;
                }
                ButtonAction::Nothing
            },
            ButtonMessageKind::MouseOut(id) => {
                if text_eq(self.component_id.as_str(), id.as_str()) {
                    self.hovered = false;
                }
                ButtonAction::Nothing
            },
            ButtonMessageKind::Clicked(id) => {
                if text_eq(self.component_id.as_str(), id.as_str()) && self.has_on_click {
                    ButtonAction::Click
                } else {
                    ButtonAction::Nothing
                }
            },
        }
    }
}

/// The possible status of a button.
#[derive(Debug, Clone, Copy, PartialEq, Eq, Structural)]
pub enum Status {
    /// The button can be pressed.
    Active,
    /// The button can be pressed and it is being hovered.
    Hovered,
    /// The button is being pressed.
    Pressed,
    /// The button cannot be pressed.
    Disabled,
}

/// The status a rich button is drawn with: disabled without a press
/// handler; otherwise pressed or hovered under the cursor, active elsewhere.
pub fn button_status(has_on_press: bool, mouse_over: bool, is_pressed: bool) -> (r: Status)
    ensures
        r == if !has_on_press {
            Status::Disabled
        } else if mouse_over {
            if is_pressed {
                Status::Pressed
            } else {
                Status::Hovered
            }
        } else {
            Status::Active
        },
{
    if !has_on_press {
        Status::Disabled
    } else if mouse_over {
        if is_pressed {
            Status::Pressed
        } else {
            Status::Hovered
        }
    } else {
        Status::Active
    }
}

/// The press and hover state a rich button keeps between events.
#[derive(Debug, Clone, Copy, PartialEq, Eq, Structural)]
pub struct PressState {
    pub is_pressed: bool,
    pub is_hovered: bool,
}

/// The pointer events a rich button reacts to.
#[derive(Debug, Clone, Copy, PartialEq, Eq, Structural)]
pub enum PointerEvent {
    /// The left mouse button or a finger went down.
    Pressed,
    /// The left mouse button or a finger went up.
    Released,
    /// A finger was lost.
    FingerLost,
    /// The cursor moved.
    CursorMoved,
    /// Any other event.
    Other,
}

/// The result of an event for a rich button: whether it captured the event
/// and whether it publishes its press message.
#[derive(Debug, Clone, Copy, PartialEq, Eq, Structural)]
pub struct EventOutcome {
    pub captured: bool,
    pub publish: bool,
}

/// The state and outcome after a pointer event (see `on_pointer_event`).
pub open spec fn pointer_step(
    state: PressState,
    event: PointerEvent,
    cursor_over: bool,
    has_on_press: bool,
    content_captured: bool,
) -> (PressState, EventOutcome) {
    let ignored = EventOutcome { captured: false, publish: false };
    if content_captured {
        (state, EventOutcome { captured: true, publish: false })
    } else {
        match event {
            PointerEvent::Pressed => if has_on_press && cursor_over {
                (PressState { is_pressed: true, ..state }, EventOutcome { captured: true, publish: false })
            } else {
                (state, ignored)
            },
            PointerEvent::Released => if has_on_press && state.is_pressed {
                (
                    PressState { is_pressed: false, ..state },
                    EventOutcome { captured: true, publish: cursor_over },
                )
            } else {
                (state, ignored)
            },
            PointerEvent::FingerLost => (PressState { is_pressed: false, ..state }, ignored),
            PointerEvent::CursorMoved => (
                PressState { is_hovered: cursor_over && !state.is_hovered, ..state },
                ignored,
            ),
            PointerEvent::Other => (state, ignored),
        }
    }
}

/// Handles a pointer event (after the button's content, which captures it
/// first when it can): a press over a button with a handler marks it
/// pressed; a release of a pressed button with a handler unmarks it and
/// publishes the press message when the cursor is still over it; a lost
/// finger unmarks it; a cursor move sets the hover flag when entering and
/// clears it otherwise.
pub fn on_pointer_event(
    state: &mut PressState,
    event: PointerEvent,
    cursor_over: bool,
    has_on_press: bool,
    content_captured: bool,
) -> (r: EventOutcome)
    ensures
        (*final(state), r) == pointer_step(*old(state), event, cursor_over, has_on_press, content_captured),
{
    if content_captured {
        return EventOutcome { captured: true, publish: false };
    }
    match event {
        PointerEvent::Pressed => {
            if has_on_press && cursor_over {
                state.is_pressed = true;
                return EventOutcome { captured: true, publish: false };
            }
        },
        PointerEvent::Released => {
            if has_on_press && state.is_pressed {
                state.is_pressed = false;
                return EventOutcome { captured: true, publish: cursor_over };
            }
        },
        PointerEvent::FingerLost => {
            state.is_pressed = false;
        },
        PointerEvent::CursorMoved => {
            if cursor_over && !state.is_hovered {
                state.is_hovered = true;
            } else if state.is_hovered {
                state.is_hovered = false;
            }
        },
        PointerEvent::Other => {},
    }
    EventOutcome { captured: false, publish: false }
}

/// The cursor a rich button asks for.
#[derive(Debug, Clone, Copy, PartialEq, Eq, Structural)]
pub enum MouseInteraction {
    /// The default cursor.
    Idle,
    /// A pointing hand: the button can be pressed.
    Pointer,
    /// The button cannot be pressed.
    NotAllowed,
}

/// The cursor over a rich button: a pointer when it has a press handler, a
/// refusal when it has none, the default cursor elsewhere.
pub fn mouse_interaction(mouse_over: bool, has_on_press: bool) -> (r: MouseInteraction)
    ensures
        r == if mouse_over && has_on_press {
            MouseInteraction::Pointer
        } else if mouse_over {
            MouseInteraction::NotAllowed
        } else {
            MouseInteraction::Idle
        },
{
    if mouse_over && has_on_press {
        MouseInteraction::Pointer
    } else if mouse_over && !has_on_press {
        MouseInteraction::NotAllowed
    } else {
        MouseInteraction::Idle
    }
}

/// A click is a press and a release over the button: on a button with a
/// press handler whose content does not capture the events, a press over it
/// followed by a release over it publishes the press message once, and
/// leaves the button unpressed, whatever state it started in.
pub proof fn lemma_press_release_publishes(start: PressState)
    ensures
        ({
            let (pressed, first) = pointer_step(start, PointerEvent::Pressed, true, true, false);
            let (released, second) = pointer_step(pressed, PointerEvent::Released, true, true, false);
            &&& !first.publish
            &&& second.publish
            &&& !released.is_pressed
        }),
{
}

/// Without a press handler a button never publishes, whatever the event.
pub proof fn lemma_no_handler_never_publishes(
    state: PressState,
    event: PointerEvent,
    cursor_over: bool,
    content_captured: bool,
)
    ensures
        !pointer_step(state, event, cursor_over, false, content_captured).1.publish,
{
}

} // verus!
