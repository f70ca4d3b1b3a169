//! The reactor's event-dispatch policy: how each incoming signal — native
//! tick, tray-menu click, hotkey press, delayed internal message — mutates
//! the mute state, the throttle and the popup, and what it asks the
//! surrounding program to do next.
//!
//! Device mute calls happen outside this crate, so each toggle is a
//! two-phase protocol: `plan_update_mic` says which device state to
//! request (if any), the surrounding program performs the call, and
//! `finish_update_mic` commits the outcome and re-renders. The delayed
//! "hide the popup" message is re-checked against live mute state at
//! delivery time, so a stale message is a no-op.

use vstd::prelude::*;

use crate::popup::Monitor;
use crate::popup::Popup;
use crate::state::DeviceError;
use crate::state::MuteState;
use crate::state::toggle_target;
use crate::throttle::Throttle;

verus! {

/// Minimum interval between two cursor-detection / re-mute passes,
/// in milliseconds.
pub const THROTTLE_TIMEOUT_MILLIS: u64 = 200;

/// Delay before a scheduled popup hide is delivered, in milliseconds.
pub const HIDE_DELAY_MILLIS: u64 = 1000;

/// A message the reactor posts to itself through its event queue.
#[derive(Clone, Copy, Debug, PartialEq, Eq, Structural)]
pub enum Message {
    /// Delivered about a second after a toggle to unmuted; hides the
    /// popup unless the state was toggled back to muted in the meantime.
    HidePopup,
}

/// The two actions the tray menu offers.
#[derive(Clone, Copy, Debug, PartialEq, Eq, Structural)]
pub enum MenuAction {
    ToggleMute,
    Quit,
}

/// The identifiers the reactor matches incoming events against.
pub struct EventIds {
    pub button_toggle_mute: u64,
    pub button_quit: u64,
    pub mute_shortcut: u32,
}

impl EventIds {
    /// Which menu action a menu event with identifier `id` selects.
    /// Quit is matched first, as the dispatch order has it.
    pub fn menu_action(&self, id: u64) -> (a: Option<MenuAction>)
        ensures
            self.button_quit == id ==> a == Some(MenuAction::Quit),
            self.button_quit != id && self.button_toggle_mute == id ==> a == Some(
                MenuAction::ToggleMute,
            ),
            self.button_quit != id && self.button_toggle_mute != id ==> a is None,
    {
        if self.button_quit == id {
            Some(MenuAction::Quit)
        } else if self.button_toggle_mute == id {
            Some(MenuAction::ToggleMute)
        } else {
            None
        }
    }

    /// Whether a hotkey event triggers the toggle: it must carry the
    /// registered shortcut's identifier and be a press, not a release.
    pub fn hotkey_triggers(&self, id: u32, pressed: bool) -> (r: bool)
        ensures
            r == (self.mute_shortcut == id && pressed),
    {
        self.mute_shortcut == id && pressed
    }
}

/// The device state a mute pass asks for: a toggle request flips the
/// current state; a background pass re-asserts the device mute only while
/// muted, and asks for nothing otherwise.
pub open spec fn mic_plan(muted: bool, toggle: bool) -> Option<Option<bool>> {
    if toggle {
        Some(None)
    } else if muted {
        Some(Some(true))
    } else {
        None
    }
}

/// Everything the reactor owns: the mute flag, the throttle for the
/// expensive per-tick pass, and the popup's visual state.
pub struct Reactor {
    pub mute: MuteState,
    pub throttle: Throttle,
    pub popup: Popup,
}

impl Reactor {
    /// A reactor as it stands when the loop starts.
    pub fn new(muted: bool, throttle_window_ms: u64) -> (r: Reactor)
        ensures
            r.mute.muted == muted,
            r.throttle.window_ms == throttle_window_ms,
            r.throttle.last_accepted is None,
            !r.popup.visible,
            r.popup.text_muted == muted,
            r.popup.x == 0 && r.popup.y == 0,
            !r.popup.cursor_on_separate_monitor,
    {
        Reactor {
            mute: MuteState::new(muted),
            throttle: Throttle::new(throttle_window_ms),
            popup: Popup::new(muted),
        }
    }

    /// Gate for the expensive background pass on a native event at
    /// `now_ms`: runs at most once per throttle window. Returns whether
    /// the pass should run, recording the acceptance when it does.
    pub fn begin_native_tick(&mut self, now_ms: u64) -> (run: bool)
        ensures
            run == old(self).throttle.is_available(now_ms),
            run ==> final(self).throttle.last_accepted == Some(now_ms)
                && final(self).throttle.window_ms == old(self).throttle.window_ms,
            !run ==> final(self).throttle == old(self).throttle,
            final(self).mute == old(self).mute,
            final(self).popup == old(self).popup,
    {
        if self.throttle.available(now_ms) {
            let _accepted = self.throttle.accept(now_ms);
            true
        } else {
            false
        }
    }

    /// First phase of a mute pass: which state to request from the
    /// device, if any. `Some(desired)` asks the surrounding program to
    /// perform the device call with `desired`; `None` means no call.
    pub fn plan_update_mic(&self, toggle: bool) -> (p: Option<Option<bool>>)
        ensures
            p == mic_plan(self.mute.muted, toggle),
    {
        if toggle {
            Some(None)
        } else if self.mute.muted {
            Some(Some(true))
        } else {
            None
        }
    }

    /// Second phase of a mute pass, once the planned device call came
    /// back. On success the flag takes the reported state and the popup
    /// is re-rendered; on failure both are left exactly as they were, so
    /// a device fault never desynchronizes flag, device and popup.
    /// Returns whether a delayed hide must be scheduled: only after a
    /// successful toggle that ended unmuted.
    pub fn finish_update_mic(
        &mut self,
        toggle: bool,
        outcome: Result<bool, DeviceError>,
        cursor_monitor: Option<Monitor>,
    ) -> (schedule_hide: bool)
        ensures
            final(self).throttle == old(self).throttle,
            match outcome {
                Ok(m) => {
                    &&& final(self).mute.muted == m
                    &&& final(self).popup.text_muted == m
                    &&& (m ==> final(self).popup.visible)
                    &&& (!m ==> final(self).popup.visible == old(self).popup.visible)
                    &&& schedule_hide == (toggle && !m)
                },
                Err(e) => {
                    &&& final(self).mute == old(self).mute
                    &&& final(self).popup == old(self).popup
                    &&& !schedule_hide
                },
            },
            match (outcome, cursor_monitor) {
                (Ok(m), Some(mon)) => {
                    &&& final(self).popup.x == crate::popup::place_x(mon)
                    &&& final(self).popup.y == crate::popup::place_y(mon)
                    &&& !final(self).popup.cursor_on_separate_monitor
                },
                (Ok(m), None) => {
                    &&& final(self).popup.x == old(self).popup.x
                    &&& final(self).popup.y == old(self).popup.y
                    &&& final(self).popup.cursor_on_separate_monitor == old(self).popup.cursor_on_separate_monitor
                },
                _ => true,
            },
    {
        match outcome {
            Ok(m) => {
                let _committed = self.mute.commit(Ok(m));
                self.popup.update(m, cursor_monitor);
                toggle && !m
            },
            Err(_) => false,
        }
    }

    /// Delivery of the delayed [`Message::HidePopup`]: hides the popup
    /// only if the state is still unmuted. A stale message — one whose
    /// toggle was overtaken by a toggle back to muted — changes nothing,
    /// so the popup keeps showing "Muted".
    pub fn on_hide_message(&mut self)
        ensures
            old(self).mute.muted ==> *final(self) == *old(self),
            !old(self).mute.muted ==> {
                &&& !final(self).popup.visible
                &&& final(self).popup.text_muted == old(self).popup.text_muted
                &&& final(self).popup.x == old(self).popup.x
                &&& final(self).popup.y == old(self).popup.y
                &&& final(self).popup.cursor_on_separate_monitor == old(self).popup.cursor_on_separate_monitor
                &&& final(self).mute == old(self).mute
                &&& final(self).throttle == old(self).throttle
            },
    {
        if !self.mute.muted {
            self.popup.hide_popup();
        }
    }

    /// The forced device state requested when the quit menu item is
    /// selected: always unmuted, whatever the current state, so the
    /// hardware is never left muted after the process exits.
    pub fn quit_plan(&self) -> (d: Option<bool>)
        ensures
            d == Some(false),
            toggle_target(self.mute.muted, d) == false,
    {
        Some(false)
    }
}

} // verus!
