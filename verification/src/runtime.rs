//! Input-bridge decisions of the headless runtime: which window it listens to, how mouse
//! buttons map to pointer buttons, which buttons are held, and how synthesized roots are
//! composed into one view.
use vstd::prelude::*;

use crate::ecs::EntityId;

verus! {

/// The runtime follows the first window that sends it input and ignores every other one.
#[derive(Debug, Clone, Copy, PartialEq, Eq, Structural)]
pub struct WindowFilter {
    pub active_window: Option<EntityId>,
}

/// The window followed after input from `window`, and whether that input is accepted.
pub open spec fn window_step(active: Option<EntityId>, window: EntityId) -> (Option<EntityId>, bool) {
    match active {
        Some(a) => (active, a == window),
        None => (Some(window), true),
    }
}

impl WindowFilter {
    /// A filter that has not seen any window yet.
    pub fn new() -> (filter: Self)
        ensures
            filter.active_window is None,
    {
        Self { active_window: None }
    }

    /// Accept input from `window` when it is the followed window; the first window seen
    /// becomes the followed one.
    pub fn accepts_window(&mut self, window: EntityId) -> (accepted: bool)
        ensures
            (final(self).active_window, accepted) == window_step(old(self).active_window, window),
    {
        match self.active_window {
            Some(active) => active == window,
            None => {
                self.active_window = Some(window);
                true
            },
        }
    }
}

/// Once a window has been accepted, input from any other window is refused, however many
/// steps follow.
pub proof fn lemma_first_window_wins(first: EntityId, later: Seq<EntityId>)
    ensures
        forall|i: int|
            0 <= i < later.len() ==> #[trigger] window_step(followed_after(Some(first), later.take(i)), later[i]).1
                == (later[i] == first),
        followed_after(window_step(None, first).0, later) == Some(first),
    decreases later.len(),
{
    lemma_followed_stays(first, later);
    assert forall|i: int| 0 <= i < later.len() implies #[trigger] window_step(
        followed_after(Some(first), later.take(i)),
        later[i],
    ).1 == (later[i] == first) by {
        lemma_followed_stays(first, later.take(i));
    }
}

/// The followed window after a sequence of inputs.
pub open spec fn followed_after(active: Option<EntityId>, windows: Seq<EntityId>) -> Option<EntityId>
    decreases windows.len(),
{
    if windows.len() == 0 {
        active
    } else {
        window_step(followed_after(active, windows.drop_last()), windows.last()).0
    }
}

proof fn lemma_followed_stays(first: EntityId, windows: Seq<EntityId>)
    ensures
        followed_after(Some(first), windows) == Some(first),
    decreases windows.len(),
{
    if windows.len() > 0 {
        lemma_followed_stays(first, windows.drop_last());
    }
}

/// Mouse buttons as the windowing layer reports them.
#[derive(Debug, Clone, Copy, PartialEq, Eq, Structural)]
pub enum MouseButtonKind {
    Left,
    Right,
    Middle,
    Back,
    Forward,
    Other(u16),
}

/// Pointer buttons as the widget tree understands them.
#[derive(Debug, Clone, Copy, PartialEq, Eq, Structural)]
pub enum PointerButtonKind {
    Primary,
    Secondary,
    Auxiliary,
    X1,
    X2,
}

/// Whether a mouse button went down or up.
#[derive(Debug, Clone, Copy, PartialEq, Eq, Structural)]
pub enum ButtonStateKind {
    Pressed,
    Released,
}

/// The pointer button a mouse button drives; other buttons drive none.
pub open spec fn pointer_button_for(button: MouseButtonKind) -> Option<PointerButtonKind> {
    match button {
        MouseButtonKind::Left => Some(PointerButtonKind::Primary),
        MouseButtonKind::Right => Some(PointerButtonKind::Secondary),
        MouseButtonKind::Middle => Some(PointerButtonKind::Auxiliary),
        MouseButtonKind::Back => Some(PointerButtonKind::X1),
        MouseButtonKind::Forward => Some(PointerButtonKind::X2),
        MouseButtonKind::Other(_) => None,
    }
}

/// Map a mouse button to the pointer button it drives.
pub fn map_mouse_button(button: MouseButtonKind) -> (mapped: Option<PointerButtonKind>)
    ensures
        mapped == pointer_button_for(button),
{
    match button {
        MouseButtonKind::Left => Some(PointerButtonKind::Primary),
        MouseButtonKind::Right => Some(PointerButtonKind::Secondary),
        MouseButtonKind::Middle => Some(PointerButtonKind::Auxiliary),
        MouseButtonKind::Back => Some(PointerButtonKind::X1),
        MouseButtonKind::Forward => Some(PointerButtonKind::X2),
        MouseButtonKind::Other(_) => None,
    }
}

/// The pointer buttons currently held.
#[derive(Debug, Clone, Copy, PartialEq, Eq, Structural)]
pub struct PressedButtons {
    pub primary: bool,
    pub secondary: bool,
    pub auxiliary: bool,
    pub x1: bool,
    pub x2: bool,
}

impl PressedButtons {
    /// Whether `button` is held.
    pub open spec fn holds(self, button: PointerButtonKind) -> bool {
        match button {
            PointerButtonKind::Primary => self.primary,
            PointerButtonKind::Secondary => self.secondary,
            PointerButtonKind::Auxiliary => self.auxiliary,
            PointerButtonKind::X1 => self.x1,
            PointerButtonKind::X2 => self.x2,
        }
    }

    /// The set with `button` held or released, the others unchanged.
    pub open spec fn with(self, button: PointerButtonKind, held: bool) -> Self {
        match button {
            PointerButtonKind::Primary => PressedButtons { primary: held, ..self },
            PointerButtonKind::Secondary => PressedButtons { secondary: held, ..self },
            PointerButtonKind::Auxiliary => PressedButtons { auxiliary: held, ..self },
            PointerButtonKind::X1 => PressedButtons { x1: held, ..self },
            PointerButtonKind::X2 => PressedButtons { x2: held, ..self },
        }
    }

    /// No button held.
    pub fn new() -> (buttons: Self)
        ensures
            forall|b: PointerButtonKind| !#[trigger] buttons.holds(b),
    {
        Self { primary: false, secondary: false, auxiliary: false, x1: false, x2: false }
    }

    /// Mark `button` held or released.
    pub fn set(&mut self, button: PointerButtonKind, held: bool)
        ensures
            *final(self) == old(self).with(button, held),
    {
        match button {
            PointerButtonKind::Primary => self.primary = held,
            PointerButtonKind::Secondary => self.secondary = held,
            PointerButtonKind::Auxiliary => self.auxiliary = held,
            PointerButtonKind::X1 => self.x1 = held,
            PointerButtonKind::X2 => self.x2 = held,
        }
    }
}

/// The pointer event a mouse button change turns into.
#[derive(Debug, Clone, Copy, PartialEq, Eq, Structural)]
pub enum PointerDispatch {
    Down(PointerButtonKind),
    Up(PointerButtonKind),
}

/// What a mouse button change does: nothing for a refused window or an unmapped button;
/// otherwise the button is held (press) or released (release) and a down or up event is
/// sent.
pub open spec fn mouse_button_step(
    active: Option<EntityId>,
    pressed: PressedButtons,
    window: EntityId,
    button: MouseButtonKind,
    state: ButtonStateKind,
) -> (Option<EntityId>, PressedButtons, Option<PointerDispatch>) {
    let (next_active, accepted) = window_step(active, window);
    if !accepted {
        (next_active, pressed, None)
    } else {
        match pointer_button_for(button) {
            None => (next_active, pressed, None),
            Some(b) => match state {
                ButtonStateKind::Pressed => (next_active, pressed.with(b, true), Some(PointerDispatch::Down(b))),
                ButtonStateKind::Released => (next_active, pressed.with(b, false), Some(PointerDispatch::Up(b))),
            },
        }
    }
}

/// Decide what a mouse button change from `window` does to the followed window and the
/// held buttons, and which pointer event (if any) to send.
pub fn plan_mouse_button(
    filter: &mut WindowFilter,
    pressed: &mut PressedButtons,
    window: EntityId,
    button: MouseButtonKind,
    state: ButtonStateKind,
) -> (dispatch: Option<PointerDispatch>)
    ensures
        (final(filter).active_window, *final(pressed), dispatch) == mouse_button_step(
            old(filter).active_window,
            *old(pressed),
            window,
            button,
            state,
        ),
{
    if !filter.accepts_window(window) {
        return None;
    }
    let mapped = match map_mouse_button(button) {
        Some(mapped) => mapped,
        None => return None,
    };
    match state {
        ButtonStateKind::Pressed => {
            pressed.set(mapped, true);
            Some(PointerDispatch::Down(mapped))
        },
        ButtonStateKind::Released => {
            pressed.set(mapped, false);
            Some(PointerDispatch::Up(mapped))
        },
    }
}

/// Pressing and then releasing a mapped button of the followed window leaves the held
/// buttons as they were before the press, when that button was not held.
pub proof fn lemma_press_release_restores(
    active: EntityId,
    pressed: PressedButtons,
    button: MouseButtonKind,
)
    requires
        pointer_button_for(button) matches Some(b) && !pressed.holds(b),
    ensures
        ({
            let (a1, p1, d1) = mouse_button_step(Some(active), pressed, active, button, ButtonStateKind::Pressed);
            let (a2, p2, d2) = mouse_button_step(a1, p1, active, button, ButtonStateKind::Released);
            &&& p2 == pressed
            &&& d1 == Some(PointerDispatch::Down(pointer_button_for(button)->0))
            &&& d2 == Some(PointerDispatch::Up(pointer_button_for(button)->0))
        }),
{
}

/// How the synthesized roots become the window's single root view.
#[derive(Debug, Clone, Copy, PartialEq, Eq, Structural)]
pub enum RootComposition {
    /// No root: show a fallback label.
    Fallback,
    /// One root: use it unchanged.
    Single,
    /// Several roots: stack them, first at the bottom, stretched to the window.
    Stacked,
}

/// Choose how `root_count` synthesized roots are shown.
pub fn compose_roots(root_count: usize) -> (composition: RootComposition)
    ensures
        root_count == 0 ==> composition == RootComposition::Fallback,
        root_count == 1 ==> composition == RootComposition::Single,
        root_count > 1 ==> composition == RootComposition::Stacked,
{
    if root_count == 0 {
        RootComposition::Fallback
    } else if root_count == 1 {
        RootComposition::Single
    } else {
        RootComposition::Stacked
    }
}

} // verus!
