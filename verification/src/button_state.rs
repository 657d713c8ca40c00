use vstd::prelude::*;

verus! {

/// The observable condition of one mouse button.
///
/// `Pressed` and `Released` are *edge* states: they mean the button changed
/// level during the current unretired window, and they survive only until
/// the next frame retirement. `Held` and `NotPressed` are the stable *level*
/// states that the edges decay to.
#[derive(Clone, Copy, Debug, PartialEq, Eq, Structural)]
pub enum ButtonState {
    /// The button went down during the current unretired window (an edge).
    Pressed,
    /// The button is down, and has been since before the last retirement.
    Held,
    /// The button went up during the current unretired window (an edge).
    Released,
    /// The button is up, and has been since before the last retirement.
    NotPressed,
}

impl ButtonState {
    /// The state after one frame retirement: each edge decays to its level
    /// state (`Pressed` to `Held`, `Released` to `NotPressed`), and the
    /// level states stay as they are.
    pub open spec fn cleared(self) -> ButtonState {
        match self {
            ButtonState::Pressed => ButtonState::Held,
            ButtonState::Released => ButtonState::NotPressed,
            level => level,
        }
    }

    /// Decay an edge state into its level state at a frame boundary.
    pub fn clear_temporary(self) -> (r: ButtonState)
        ensures
            r == self.cleared(),
    {
        match self {
            ButtonState::Pressed => ButtonState::Held,
            ButtonState::Released => ButtonState::NotPressed,
            level => level,
        }
    }
}

} // verus!
