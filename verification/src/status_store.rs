//! A minimal status record holding only the mutable color state.
//!
//! This is the color-tracking core of `crate::status::Status` without the
//! identity fields, the subscription flag, or any clock access: useful where
//! only the current/previous color pair is tracked.

use vstd::prelude::*;

verus! {

type RgbColor = (u8, u8, u8);

/// Current and previous color, plus the stamp of the last recorded change.
pub struct Status {
    pub last_changed: u64,
    pub current_color: RgbColor,
    pub last_color: RgbColor,
}

impl Status {
    pub fn new() -> (s: Status)
        ensures
            s.last_changed == 0,
            s.current_color == ((0u8, 0u8, 0u8)),
            s.last_color == ((0u8, 0u8, 0u8)),
    {
        Status { last_changed: 0, current_color: (0, 0, 0), last_color: (0, 0, 0) }
    }

    /// Record a new color; the replaced color moves to `last_color` and the
    /// stamp is left untouched.
    pub fn set_new_status(&mut self, new_color: RgbColor)
        ensures
            final(self).current_color == new_color,
            final(self).last_color == old(self).current_color,
            final(self).last_changed == old(self).last_changed,
    {
        self.last_color = self.current_color;
        self.current_color = new_color;
    }
}

} // verus!
