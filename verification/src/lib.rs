//! A per-frame pointer-input abstraction: the cursor position plus up to
//! three mouse buttons, kept as a small frame-stable snapshot that
//! application logic can poll once per frame.
//!
//! Raw device notifications arrive as plain values — a button identifier
//! with a pressed/released flag, or a new cursor position — and mutate the
//! snapshot; a per-frame retirement step decays the transient edge states
//! (`Pressed`, `Released`) into the stable level states (`Held`,
//! `NotPressed`), so that an edge is observable for exactly one frame.

pub mod button_state;
pub mod geom;
pub mod mouse;
