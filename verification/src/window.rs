//! Show/hide rules of the panel window. Every show or hide starts a grace
//! period during which hotkey toggles and focus-loss hides are ignored, and
//! focus-loss hides are also suppressed while a menu is open.

use vstd::prelude::*;

verus! {

/// Length of the grace period after a show or hide, in milliseconds.
pub const GRACE_MS: u64 = 600;

/// The panel's show/hide bookkeeping.
pub struct WindowState {
    last_action_time: u64,
    blur_paused: bool,
}

/// What a hotkey toggle does.
#[derive(Debug, Clone, Copy, PartialEq, Eq, Structural)]
pub enum ToggleAction {
    /// Within the grace period: nothing happens.
    Ignore,
    /// The panel is visible: ask the interface to hide it.
    Hide,
    /// The panel is hidden: show it.
    Show,
}

/// Whether `now` falls in the grace period that started at `last`
/// (a clock that went backwards counts as no time elapsed).
pub open spec fn in_grace(last: u64, now: u64) -> bool {
    (if now >= last { now - last } else { 0int }) < GRACE_MS
}

impl WindowState {
    /// Time of the last show or hide, in milliseconds.
    pub closed spec fn last_action(&self) -> u64 {
        self.last_action_time
    }

    /// Whether focus-loss hides are suspended.
    pub closed spec fn paused(&self) -> bool {
        self.blur_paused
    }

    /// No action yet (time 0) and focus-loss hides active.
    pub fn new() -> (s: Self)
        ensures
            s.last_action() == 0,
            !s.paused(),
    {
        WindowState { last_action_time: 0, blur_paused: false }
    }

    /// Whether focus-loss hides are suspended.
    pub fn is_blur_paused(&self) -> (b: bool)
        ensures
            b == self.paused(),
    {
        self.blur_paused
    }

    /// Records a show or hide at time `now`, starting a grace period.
    pub fn mark_action(&mut self, now: u64)
        ensures
            final(self).last_action() == now,
            final(self).paused() == old(self).paused(),
    {
        self.last_action_time = now;
    }

    /// Whether `now` is within the grace period of the last action.
    pub fn is_in_grace_period(&self, now: u64) -> (b: bool)
        ensures
            b == in_grace(self.last_action(), now),
    {
        now.saturating_sub(self.last_action_time) < GRACE_MS
    }

    /// A hotkey toggle at time `now` with the panel visible or not: ignored
    /// during the grace period, otherwise a hide or a show, which starts a
    /// new grace period.
    pub fn toggle(&mut self, now: u64, visible: bool) -> (a: ToggleAction)
        ensures
            in_grace(old(self).last_action(), now) ==> a == ToggleAction::Ignore && final(self).last_action()
                == old(self).last_action(),
            !in_grace(old(self).last_action(), now) ==> a == (if visible {
                ToggleAction::Hide
            } else {
                ToggleAction::Show
            }) && final(self).last_action() == now,
            final(self).paused() == old(self).paused(),
    {
        if self.is_in_grace_period(now) {
            return ToggleAction::Ignore;
        }
        self.mark_action(now);
        if visible {
            ToggleAction::Hide
        } else {
            ToggleAction::Show
        }
    }

    /// Focus loss at time `now`: hide unless within the grace period or
    /// while focus-loss hides are paused. A hide starts a grace period.
    pub fn on_focus_lost(&mut self, now: u64) -> (hide: bool)
        ensures
            hide == (!in_grace(old(self).last_action(), now) && !old(self).paused()),
            hide ==> final(self).last_action() == now,
            !hide ==> final(self).last_action() == old(self).last_action(),
            final(self).paused() == old(self).paused(),
    {
        if !self.is_in_grace_period(now) && !self.blur_paused {
            self.mark_action(now);
            true
        } else {
            false
        }
    }
}

/// Suspends (`true`) or resumes (`false`) focus-loss hides, as while a
/// context menu is open.
pub fn set_blur_paused(state: &mut WindowState, paused: bool)
    ensures
        final(state).paused() == paused,
        final(state).last_action() == old(state).last_action(),
{
    state.blur_paused = paused;
}

/// Records a show or hide at time `now` (for callers outside the panel).
pub fn mark_action_public(state: &mut WindowState, now: u64)
    ensures
        final(state).last_action() == now,
        final(state).paused() == old(state).paused(),
{
    state.mark_action(now);
}

/// Debounce: once a toggle has shown or hidden the panel at time `t`, every
/// toggle at a time from `t` up to (not including) `t + GRACE_MS` is ignored.
pub proof fn lemma_toggle_debounce(t: u64, later: u64)
    requires
        t <= later < t + GRACE_MS,
    ensures
        in_grace(t, later),
{
}

/// A grace period ends: at `t + GRACE_MS` and after, toggles act again.
pub proof fn lemma_grace_ends(t: u64, later: u64)
    requires
        later >= t + GRACE_MS,
    ensures
        !in_grace(t, later),
{
}

} // verus!
