use vstd::prelude::*;

use crate::button_state::ButtonState;
use crate::geom::Vector;

verus! {

/// The mathematical model of a [`Mouse`] snapshot: the cursor position and
/// the state of each tracked button, together with the transition functions
/// that every raw notification and every frame retirement follows.
pub struct MouseView {
    pub pos: Vector,
    pub left: ButtonState,
    pub right: ButtonState,
    pub middle: ButtonState,
}

impl MouseView {
    /// The state a session starts in: all buttons up, cursor at the origin.
    pub open spec fn initial() -> MouseView {
        MouseView {
            pos: Vector::origin(),
            left: ButtonState::NotPressed,
            right: ButtonState::NotPressed,
            middle: ButtonState::NotPressed,
        }
    }

    /// The state after one raw button notification. Identifiers 0, 1 and 2
    /// select the left, right and middle button; the named button is set to
    /// the matching edge state, overwriting whatever it held before. Any
    /// other identifier leaves the state untouched.
    pub open spec fn record_button(self, button: u32, state: bool) -> MouseView {
        let value = if state {
            ButtonState::Pressed
        } else {
            ButtonState::Released
        };
        if button == 0 {
            MouseView { left: value, ..self }
        } else if button == 1 {
            MouseView { right: value, ..self }
        } else if button == 2 {
            MouseView { middle: value, ..self }
        } else {
            self
        }
    }

    /// The state after one raw cursor-position notification: the position
    /// is replaced, the buttons are untouched.
    pub open spec fn record_pos(self, pos: Vector) -> MouseView {
        MouseView { pos, ..self }
    }

    /// The state after one frame retirement: each button's edge state
    /// decays to its level state, and the position is untouched.
    pub open spec fn cleared(self) -> MouseView {
        MouseView {
            pos: self.pos,
            left: self.left.cleared(),
            right: self.right.cleared(),
            middle: self.middle.cleared(),
        }
    }
}

/// A simple mouse cursor abstraction: the last known cursor location in
/// viewport space and the state of the left, right and middle buttons.
///
/// The platform layer feeds it raw notifications through [`Mouse::process_button`]
/// and [`Mouse::set_pos`]; the application loop calls
/// [`Mouse::clear_temporary_states`] once per frame boundary, after all of
/// the frame's reads; application code reads it through the accessors.
#[derive(Clone, Debug, Eq, PartialEq)]
pub struct Mouse {
    pos: Vector,
    left: ButtonState,
    right: ButtonState,
    middle: ButtonState,
}

impl View for Mouse {
    type V = MouseView;

    closed spec fn view(&self) -> MouseView {
        MouseView {
            pos: self.pos,
            left: self.left,
            right: self.right,
            middle: self.middle,
        }
    }
}

impl Mouse {
    /// A fresh session state: all buttons up, cursor at the origin.
    pub fn new() -> (m: Mouse)
        ensures
            m@ == MouseView::initial(),
    {
        Mouse {
            pos: Vector::zero(),
            left: ButtonState::NotPressed,
            right: ButtonState::NotPressed,
            middle: ButtonState::NotPressed,
        }
    }

    /// Record one raw button notification: identifier 0, 1 or 2 selects the
    /// left, right or middle button, which is set to `Pressed` or `Released`
    /// according to `state`, overwriting any prior state. An unknown
    /// identifier is silently ignored.
    pub fn process_button(&mut self, button: u32, state: bool)
        ensures
            final(self)@ == old(self)@.record_button(button, state),
    {
        let value = if state {
            ButtonState::Pressed
        } else {
            ButtonState::Released
        };
        match button {
            0 => self.left = value,
            1 => self.right = value,
            2 => self.middle = value,
            _ => (),
        }
    }

    /// Record one raw cursor-position notification. No validation is done:
    /// the new position replaces the old one unconditionally, last write
    /// wins.
    pub fn set_pos(&mut self, pos: Vector)
        ensures
            final(self)@ == old(self)@.record_pos(pos),
    {
        self.pos = pos;
    }

    /// Retire the frame's edges: for each button independently, `Pressed`
    /// decays to `Held` and `Released` to `NotPressed`, while the level
    /// states and the position stay as they are. Called once per frame
    /// boundary, after all of the frame's reads.
    pub fn clear_temporary_states(&mut self)
        ensures
            final(self)@ == old(self)@.cleared(),
    {
        self.left = self.left.clear_temporary();
        self.right = self.right.clear_temporary();
        self.middle = self.middle.clear_temporary();
    }

    /// The location of the cursor in the viewport space.
    pub fn pos(&self) -> (r: Vector)
        ensures
            r == self@.pos,
    {
        self.pos
    }

    /// The state of the left mouse button.
    pub fn left(&self) -> (r: ButtonState)
        ensures
            r == self@.left,
    {
        self.left
    }

    /// The state of the middle mouse button.
    pub fn middle(&self) -> (r: ButtonState)
        ensures
            r == self@.middle,
    {
        self.middle
    }

    /// The state of the right mouse button.
    pub fn right(&self) -> (r: ButtonState)
        ensures
            r == self@.right,
    {
        self.right
    }
}

/// Edge decay: an edge recorded for a tracked button is visible for exactly
/// one unretired window. After one retirement a recorded press reads back as
/// `Held`, not `Pressed`, and a recorded release as `NotPressed`, not
/// `Released`, whatever the button held before.
pub proof fn lemma_edge_decay(m: MouseView)
    ensures
        m.record_button(0, true).cleared().left == ButtonState::Held,
        m.record_button(1, true).cleared().right == ButtonState::Held,
        m.record_button(2, true).cleared().middle == ButtonState::Held,
        m.record_button(0, false).cleared().left == ButtonState::NotPressed,
        m.record_button(1, false).cleared().right == ButtonState::NotPressed,
        m.record_button(2, false).cleared().middle == ButtonState::NotPressed,
{
}

/// A button notification touches at most the one button it names: it never
/// moves the cursor and never changes another button. So events for other
/// buttons may arrive between an edge and its retirement without disturbing
/// it.
pub proof fn lemma_record_button_frame(m: MouseView, button: u32, state: bool)
    ensures
        m.record_button(button, state).pos == m.pos,
        button != 0 ==> m.record_button(button, state).left == m.left,
        button != 1 ==> m.record_button(button, state).right == m.right,
        button != 2 ==> m.record_button(button, state).middle == m.middle,
{
}

/// Idempotent retirement: retiring twice in a row, with no notification in
/// between, leaves every button and the position exactly as one retirement
/// left them.
pub proof fn lemma_retirement_idempotent(m: MouseView)
    ensures
        m.cleared().cleared() == m.cleared(),
{
}

/// Overwrite wins: when two notifications for the same button arrive within
/// one unretired window, only the later one is visible — the state is the
/// same as if the first had never arrived.
pub proof fn lemma_overwrite_wins(m: MouseView, button: u32, first: bool, second: bool)
    ensures
        m.record_button(button, first).record_button(button, second) == m.record_button(
            button,
            second,
        ),
{
}

/// Unknown identifier is a no-op: a notification for a button outside the
/// three tracked ones leaves every button state and the position unchanged.
pub proof fn lemma_unknown_button_ignored(m: MouseView, button: u32, state: bool)
    requires
        3 <= button,
    ensures
        m.record_button(button, state) == m,
{
}

/// Position last-write-wins: of two position notifications only the second
/// remains — the state is the same as if the first had never arrived, and
/// the accessor reads back exactly the second value.
pub proof fn lemma_position_last_write_wins(m: MouseView, first: Vector, second: Vector)
    ensures
        m.record_pos(first).record_pos(second) == m.record_pos(second),
        m.record_pos(second).pos == second,
{
}

} // verus!
