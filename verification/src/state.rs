//! Mute-state transition rules: the single source of truth for "is the
//! microphone muted".
//!
//! The actual hardware call is made by the surrounding program; the rules
//! here say which device state a toggle request asks for and how the
//! in-memory flag changes once the device call's outcome is known. On a
//! device failure the flag is left untouched, so it never disagrees with
//! the hardware.

use vstd::prelude::*;

verus! {

/// A hardware or permission failure during a device mute call.
#[derive(Clone, Copy, Debug, PartialEq, Eq, Structural)]
pub struct DeviceError;

/// The device state a toggle request asks for: `Some(v)` forces the state
/// to `v`, `None` flips the current state.
pub open spec fn toggle_target(muted: bool, desired: Option<bool>) -> bool {
    match desired {
        Some(v) => v,
        None => !muted,
    }
}

/// The in-memory mute flag, mutated only through the toggle protocol.
pub struct MuteState {
    pub muted: bool,
}

impl MuteState {
    pub fn new(muted: bool) -> (s: MuteState)
        ensures
            s.muted == muted,
    {
        MuteState { muted }
    }

    /// The state the device should be put in for a toggle request.
    pub fn target(&self, desired: Option<bool>) -> (t: bool)
        ensures
            t == toggle_target(self.muted, desired),
    {
        match desired {
            Some(v) => v,
            None => !self.muted,
        }
    }

    /// Commits the outcome of a device call. On success the flag takes the
    /// muted state the device reported; on failure the flag is unchanged
    /// and the error is surfaced, so the flag never drifts from the device.
    pub fn commit(&mut self, outcome: Result<bool, DeviceError>) -> (r: Result<
        bool,
        DeviceError,
    >)
        ensures
            match outcome {
                Ok(m) => final(self).muted == m && r == Ok::<bool, DeviceError>(m),
                Err(e) => *final(self) == *old(self) && r == Err::<bool, DeviceError>(e),
            },
    {
        match outcome {
            Ok(m) => {
                self.muted = m;
                Ok(m)
            },
            Err(e) => Err(e),
        }
    }
}

/// The mute flag after a run of flip toggles (`desired == None`) in which
/// every device call succeeds and returns the requested state.
pub open spec fn muted_after_flips(initial: bool, n: nat) -> bool
    decreases n,
{
    if n == 0 {
        initial
    } else {
        toggle_target(muted_after_flips(initial, (n - 1) as nat), None)
    }
}

/// After `n` successful flip toggles the observed mute flag equals
/// `initial XOR (n % 2 == 1)`.
pub proof fn lemma_toggle_parity(initial: bool, n: nat)
    ensures
        muted_after_flips(initial, n) == (initial ^ (n % 2 == 1)),
    decreases n,
{
    if n > 0 {
        lemma_toggle_parity(initial, (n - 1) as nat);
    }
}

/// Forcing the muted state is idempotent: one `Some(true)` request asks
/// for `muted == true`, and a second one in a row asks for `true` again,
/// changing nothing.
pub proof fn lemma_force_mute_idempotent(muted: bool)
    ensures
        toggle_target(muted, Some(true)) == true,
        toggle_target(toggle_target(muted, Some(true)), Some(true)) == true,
{
}

} // verus!
