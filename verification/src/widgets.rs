//! The pointer/keyboard state machine of the ECS-dispatching button widget.
use vstd::prelude::*;

use crate::style::UiInteractionEvent;

verus! {

/// Hover and press state tracked by the button widget.
#[derive(Debug, Clone, Copy, PartialEq, Eq, Structural)]
pub struct ButtonPointerState {
    pub hovered: bool,
    pub pressed: bool,
}

/// Pointer input as the button widget sees it.
#[derive(Debug, Clone, Copy, PartialEq, Eq)]
pub enum ButtonPointerInput {
    /// A button went down; `hovered` is whether the pointer is over the widget.
    Down { hovered: bool },
    /// A button went up; `primary` for the primary button, `active` while the widget
    /// holds the pointer capture.
    Up { primary: bool, active: bool, hovered: bool },
    /// The pointer moved.
    Move { hovered: bool },
    /// The pointer left the window.
    Leave,
}

/// The widget's reaction to one input: its new state, whether its action fires, and the
/// structural interaction events it emits, in order.
#[derive(Debug, Clone, PartialEq, Eq)]
pub struct ButtonReaction {
    pub state: ButtonPointerState,
    pub clicked: bool,
    pub interactions: Vec<UiInteractionEvent>,
}

/// Hover change: emits `PointerEntered` / `PointerLeft` only when the hover state flips.
pub open spec fn hover_step(state: ButtonPointerState, hovered: bool) -> (ButtonPointerState, Seq<UiInteractionEvent>) {
    if state.hovered != hovered {
        (
            ButtonPointerState { hovered, ..state },
            seq![
                if hovered {
                    UiInteractionEvent::PointerEntered
                } else {
                    UiInteractionEvent::PointerLeft
                },
            ],
        )
    } else {
        (state, Seq::empty())
    }
}

/// Press change: emits `PointerPressed` / `PointerReleased` only when the press state flips.
pub open spec fn press_step(state: ButtonPointerState, pressed: bool) -> (ButtonPointerState, Seq<UiInteractionEvent>) {
    if state.pressed != pressed {
        (
            ButtonPointerState { pressed, ..state },
            seq![
                if pressed {
                    UiInteractionEvent::PointerPressed
                } else {
                    UiInteractionEvent::PointerReleased
                },
            ],
        )
    } else {
        (state, Seq::empty())
    }
}

/// A hover step then a press step.
pub open spec fn hover_then_press(state: ButtonPointerState, hovered: bool, pressed: bool) -> (
    ButtonPointerState,
    Seq<UiInteractionEvent>,
) {
    let (s1, e1) = hover_step(state, hovered);
    let (s2, e2) = press_step(s1, pressed);
    (s2, e1 + e2)
}

/// A press step then a hover step.
pub open spec fn press_then_hover(state: ButtonPointerState, pressed: bool, hovered: bool) -> (
    ButtonPointerState,
    Seq<UiInteractionEvent>,
) {
    let (s1, e1) = press_step(state, pressed);
    let (s2, e2) = hover_step(s1, hovered);
    (s2, e1 + e2)
}

/// The reaction of the button to a pointer input.
pub open spec fn button_reaction(state: ButtonPointerState, input: ButtonPointerInput) -> (
    ButtonPointerState,
    bool,
    Seq<UiInteractionEvent>,
) {
    match input {
        ButtonPointerInput::Down { hovered } => {
            let (s, e) = hover_then_press(state, hovered, true);
            (s, false, e)
        },
        ButtonPointerInput::Up { primary, active, hovered } => {
            let (s, e) = press_then_hover(state, false, hovered);
            (s, primary && active && hovered, e)
        },
        ButtonPointerInput::Move { hovered } => {
            let (s, e) = hover_step(state, hovered);
            (s, false, e)
        },
        ButtonPointerInput::Leave => {
            let (s, e) = hover_then_press(state, false, false);
            (s, false, e)
        },
    }
}

fn set_hovered(state: &mut ButtonPointerState, hovered: bool, events: &mut Vec<UiInteractionEvent>)
    ensures
        *final(state) == hover_step(*old(state), hovered).0,
        final(events)@ == old(events)@ + hover_step(*old(state), hovered).1,
{
    if state.hovered != hovered {
        state.hovered = hovered;
        events.push(
            if hovered {
                UiInteractionEvent::PointerEntered
            } else {
                UiInteractionEvent::PointerLeft
            },
        );
    }
    proof {
        if old(state).hovered == hovered {
            assert(final(events)@ =~= old(events)@ + Seq::<UiInteractionEvent>::empty());
        }
    }
}

fn set_pressed(state: &mut ButtonPointerState, pressed: bool, events: &mut Vec<UiInteractionEvent>)
    ensures
        *final(state) == press_step(*old(state), pressed).0,
        final(events)@ == old(events)@ + press_step(*old(state), pressed).1,
{
    if state.pressed != pressed {
        state.pressed = pressed;
        events.push(
            if pressed {
                UiInteractionEvent::PointerPressed
            } else {
                UiInteractionEvent::PointerReleased
            },
        );
    }
    proof {
        if old(state).pressed == pressed {
            assert(final(events)@ =~= old(events)@ + Seq::<UiInteractionEvent>::empty());
        }
    }
}

/// React to one pointer input.
///
/// Press: hover follows the pointer, then the button is pressed. Release: the action fires
/// for a primary release while captured and hovered, then the press ends and hover follows
/// the pointer. Leaving the window clears hover and press.
pub fn button_pointer_event(state: ButtonPointerState, input: ButtonPointerInput) -> (reaction: ButtonReaction)
    ensures
        reaction.state == button_reaction(state, input).0,
        reaction.clicked == button_reaction(state, input).1,
        reaction.interactions@ == button_reaction(state, input).2,
{
    let mut next = state;
    let mut interactions: Vec<UiInteractionEvent> = Vec::new();
    let mut clicked = false;
    match input {
        ButtonPointerInput::Down { hovered } => {
            set_hovered(&mut next, hovered, &mut interactions);
            set_pressed(&mut next, true, &mut interactions);
        },
        ButtonPointerInput::Up { primary, active, hovered } => {
            clicked = primary && active && hovered;
            set_pressed(&mut next, false, &mut interactions);
            set_hovered(&mut next, hovered, &mut interactions);
        },
        ButtonPointerInput::Move { hovered } => {
            set_hovered(&mut next, hovered, &mut interactions);
        },
        ButtonPointerInput::Leave => {
            set_hovered(&mut next, false, &mut interactions);
            set_pressed(&mut next, false, &mut interactions);
        },
    }
    proof {
        assert(Seq::<UiInteractionEvent>::empty() + hover_step(state, false).1 =~= hover_step(state, false).1);
        assert(Seq::<UiInteractionEvent>::empty() + press_step(state, false).1 =~= press_step(state, false).1);
        assert(Seq::<UiInteractionEvent>::empty() + hover_step(state, true).1 =~= hover_step(state, true).1);
    }
    ButtonReaction { state: next, clicked, interactions }
}

/// Keys as the button widget distinguishes them.
#[derive(Debug, Clone, Copy, PartialEq, Eq)]
pub enum ButtonKey {
    Space,
    Enter,
    Other,
}

/// Whether a key event activates the button: Space or Enter, on release.
pub fn key_activates_button(key_released: bool, key: ButtonKey) -> (activates: bool)
    ensures
        activates == (key_released && (key == ButtonKey::Space || key == ButtonKey::Enter)),
{
    key_released && match key {
        ButtonKey::Space => true,
        ButtonKey::Enter => true,
        ButtonKey::Other => false,
    }
}

/// After the pointer leaves, the button is neither hovered nor pressed.
pub proof fn lemma_leave_resets(state: ButtonPointerState)
    ensures
        button_reaction(state, ButtonPointerInput::Leave).0 == (ButtonPointerState { hovered: false, pressed: false }),
        !button_reaction(state, ButtonPointerInput::Leave).1,
{
}

/// The action fires only on a primary release while the button holds the pointer and is
/// hovered, never on a press.
pub proof fn lemma_click_only_on_captured_release(state: ButtonPointerInput, s: ButtonPointerState)
    ensures
        button_reaction(s, state).1 <==> (state matches ButtonPointerInput::Up { primary, active, hovered }
            && primary && active && hovered),
{
}

/// An input that leaves hover and press unchanged emits no interaction event.
pub proof fn lemma_no_change_no_interaction(s: ButtonPointerState, input: ButtonPointerInput)
    requires
        button_reaction(s, input).0 == s,
    ensures
        button_reaction(s, input).2.len() == 0,
{
}

} // verus!
