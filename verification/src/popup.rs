//! Popup presenter model: visibility, title text, placement and the
//! "cursor on a separate monitor" flag, as pure data.
//!
//! The window itself lives outside this crate; the surrounding program
//! reads monitor geometry and the cursor's monitor, hands them in as plain
//! values, and mirrors this state onto the real window.

use vstd::prelude::*;

verus! {

pub const POPUP_WIDTH: i64 = 200;

pub const POPUP_HEIGHT: i64 = 40;

/// Title text for the popup: "Muted" when muted, "Unmuted" otherwise.
pub fn get_mute_title_text(muted: bool) -> (r: &'static str)
    ensures
        muted ==> r@ == "Muted"@,
        !muted ==> r@ == "Unmuted"@,
{
    if muted {
        "Muted"
    } else {
        "Unmuted"
    }
}

/// A display's geometry and identity, as plain values: position of its
/// top-left corner, size, and an identifier that tells monitors apart.
#[derive(Clone, Copy, Debug, PartialEq, Eq, Structural)]
pub struct Monitor {
    pub x: i32,
    pub y: i32,
    pub width: u32,
    pub height: u32,
    pub id: u64,
}

/// Signed halving that truncates toward zero, as integer division of
/// machine integers does.
pub open spec fn half_toward_zero(a: int) -> int {
    if a >= 0 {
        a / 2
    } else {
        -((-a) / 2)
    }
}

/// Horizontal placement: the popup centered on the monitor,
/// `x = (monitor_width + monitor_x) / 2 - popup_width / 2`.
pub open spec fn place_x(m: Monitor) -> int {
    half_toward_zero(m.width + m.x) - POPUP_WIDTH / 2
}

/// Vertical placement: anchored near the bottom,
/// `y = monitor_y + monitor_height - 2 * popup_height`.
pub open spec fn place_y(m: Monitor) -> int {
    m.y + m.height - 2 * POPUP_HEIGHT
}

/// The popup's visual state: what the surrounding program should show.
pub struct Popup {
    pub visible: bool,
    /// Whether the title currently reads "Muted" (else "Unmuted").
    pub text_muted: bool,
    pub x: i64,
    pub y: i64,
    /// Set when the cursor was last seen on a monitor other than the one
    /// the popup occupies, so a later placement pass should move it.
    pub cursor_on_separate_monitor: bool,
}

impl Popup {
    /// A fresh, invisible popup titled for the given mute state, at the
    /// origin until a placement pass runs.
    pub fn new(muted: bool) -> (p: Popup)
        ensures
            !p.visible,
            p.text_muted == muted,
            p.x == 0 && p.y == 0,
            !p.cursor_on_separate_monitor,
    {
        Popup { visible: false, text_muted: muted, x: 0, y: 0, cursor_on_separate_monitor: false }
    }

    /// The popup's fixed size in logical units, width then height.
    pub fn get_size() -> (s: (i64, i64))
        ensures
            s.0 == POPUP_WIDTH && s.1 == POPUP_HEIGHT,
    {
        (POPUP_WIDTH, POPUP_HEIGHT)
    }

    /// Recomputes placement for the monitor under the cursor, if one was
    /// found. Finding none is not an error: placement is simply skipped
    /// and the separate-monitor flag kept.
    pub fn update_placement(&mut self, cursor_monitor: Option<Monitor>)
        ensures
            match cursor_monitor {
                Some(m) => final(self).x == place_x(m) && final(self).y == place_y(m)
                    && !final(self).cursor_on_separate_monitor,
                None => *final(self) == *old(self),
            },
            final(self).visible == old(self).visible,
            final(self).text_muted == old(self).text_muted,
    {
        if let Some(m) = cursor_monitor {
            let sum: i64 = m.width as i64 + m.x as i64;
            let hx: i64 = if sum >= 0 {
                sum / 2
            } else {
                -((-sum) / 2)
            };
            self.x = hx - POPUP_WIDTH / 2;
            self.y = m.y as i64 + m.height as i64 - 2 * POPUP_HEIGHT;
            self.cursor_on_separate_monitor = false;
        }
    }

    /// Applies a new mute state: retitles, re-places, and — only when
    /// muting — shows the popup. Unmuting does not hide it synchronously;
    /// that is the delayed-hide message's job, so the user can read the
    /// transient "Unmuted" confirmation.
    pub fn update(&mut self, muted: bool, cursor_monitor: Option<Monitor>)
        ensures
            final(self).text_muted == muted,
            muted ==> final(self).visible,
            !muted ==> final(self).visible == old(self).visible,
            match cursor_monitor {
                Some(m) => final(self).x == place_x(m) && final(self).y == place_y(m)
                    && !final(self).cursor_on_separate_monitor,
                None => final(self).x == old(self).x && final(self).y == old(self).y
                    && final(self).cursor_on_separate_monitor == old(
                    self,
                ).cursor_on_separate_monitor,
            },
    {
        self.text_muted = muted;
        self.update_placement(cursor_monitor);
        if muted {
            self.visible = true;
        }
    }

    /// Sets visibility off unconditionally; idempotent, all else kept.
    pub fn hide_popup(&mut self)
        ensures
            !final(self).visible,
            final(self).text_muted == old(self).text_muted,
            final(self).x == old(self).x && final(self).y == old(self).y,
            final(self).cursor_on_separate_monitor == old(self).cursor_on_separate_monitor,
    {
        self.visible = false;
    }

    /// Records whether the cursor's monitor differs from the popup's.
    /// When either monitor could not be resolved, the flag is kept.
    pub fn detect_cursor_monitor(
        &mut self,
        cursor_monitor: Option<Monitor>,
        window_monitor: Option<Monitor>,
    )
        ensures
            match (cursor_monitor, window_monitor) {
                (Some(c), Some(w)) => final(self).cursor_on_separate_monitor == (c.id != w.id),
                _ => final(self).cursor_on_separate_monitor == old(
                    self,
                ).cursor_on_separate_monitor,
            },
            final(self).visible == old(self).visible,
            final(self).text_muted == old(self).text_muted,
            final(self).x == old(self).x && final(self).y == old(self).y,
    {
        if let Some(c) = cursor_monitor {
            if let Some(w) = window_monitor {
                self.cursor_on_separate_monitor = c.id != w.id;
            }
        }
    }
}

} // verus!
