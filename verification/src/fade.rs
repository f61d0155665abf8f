//! When the copy button over an image is shown and when it fades away.
//!
//! The display owns one `FadeState`. It reports what happens as events and
//! carries out the actions it gets back; it holds at most one timer, the one
//! that hides the button after `FADE_DELAY_SECONDS` without activity.

use vstd::prelude::*;

verus! {

/// Seconds without activity after which the button fades away.
pub const FADE_DELAY_SECONDS: u32 = 3;

/// The state of the button.
#[derive(Debug, Clone, Copy, PartialEq, Eq, Structural)]
pub enum FadeState {
    /// The button is out of sight and no timer is pending.
    Idle,
    /// The button is in full sight and the timer that hides it is pending.
    Visible,
    /// The timer has run out and the button is fading away.
    FadingOut,
}

/// What the display reports.
#[derive(Debug, Clone, Copy, PartialEq, Eq, Structural)]
pub enum FadeEvent {
    /// The pointer moved over the window or entered it, or the window got
    /// the focus.
    Activity,
    /// The pending timer ran out.
    TimerElapsed,
    /// The button has faded away completely.
    FadeFinished,
}

/// What the display is to do after an event, in the order of the fields.
#[derive(Debug, Clone, Copy, PartialEq, Eq, Structural)]
pub struct FadeActions {
    /// Remove the pending timer before it runs out.
    pub cancel_timer: bool,
    /// Bring the button into full sight.
    pub show_button: bool,
    /// Start a timer of `FADE_DELAY_SECONDS`.
    pub start_timer: bool,
    /// Let the button fade away.
    pub begin_fade: bool,
}

impl FadeState {
    /// Whether the display holds a timer that has not run out.
    pub open spec fn timer_pending(self) -> bool {
        self is Visible
    }

    /// The state after `event`.
    ///
    /// Activity brings the button into sight from every state. The timer
    /// lets a visible button fade, and the end of the fade leaves it idle;
    /// the same two events change nothing in any other state.
    pub open spec fn after(self, event: FadeEvent) -> FadeState {
        match (self, event) {
            (_, FadeEvent::Activity) => FadeState::Visible,
            (FadeState::Visible, FadeEvent::TimerElapsed) => FadeState::FadingOut,
            (FadeState::FadingOut, FadeEvent::FadeFinished) => FadeState::Idle,
            (state, _) => state,
        }
    }

    /// What the display is to do when `event` arrives in this state.
    pub open spec fn actions(self, event: FadeEvent) -> FadeActions {
        match (self, event) {
            (state, FadeEvent::Activity) => FadeActions {
                cancel_timer: state is Visible,
                show_button: true,
                start_timer: true,
                begin_fade: false,
            },
            (FadeState::Visible, FadeEvent::TimerElapsed) => FadeActions {
                cancel_timer: false,
                show_button: false,
                start_timer: false,
                begin_fade: true,
            },
            _ => FadeActions {
                cancel_timer: false,
                show_button: false,
                start_timer: false,
                begin_fade: false,
            },
        }
    }

    /// The state in which the display starts: nothing is pending, and the
    /// first activity shows the button and starts its timer.
    pub fn new() -> (state: FadeState)
        ensures
            state == FadeState::Idle,
    {
        FadeState::Idle
    }

    /// Takes an event: returns the next state and what the display is to do.
    pub fn on_event(self, event: FadeEvent) -> (next: (FadeState, FadeActions))
        ensures
            next.0 == self.after(event),
            next.1 == self.actions(event),
    {
        let nothing = FadeActions {
            cancel_timer: false,
            show_button: false,
            start_timer: false,
            begin_fade: false,
        };
        match event {
            FadeEvent::Activity => {
                let pending = match self {
                    FadeState::Visible => true,
                    _ => false,
                };
                (
                    FadeState::Visible,
                    FadeActions {
                        cancel_timer: pending,
                        show_button: true,
                        start_timer: true,
                        begin_fade: false,
                    },
                )
            },
            FadeEvent::TimerElapsed => match self {
                FadeState::Visible => (
                    FadeState::FadingOut,
                    FadeActions {
                        cancel_timer: false,
                        show_button: false,
                        start_timer: false,
                        begin_fade: true,
                    },
                ),
                state => (state, nothing),
            },
            FadeEvent::FadeFinished => match self {
                FadeState::FadingOut => (FadeState::Idle, nothing),
                state => (state, nothing),
            },
        }
    }
}

/// The display never holds two timers and never removes one that is not
/// there: a timer is cancelled only while one is pending, one is started
/// only when none is left, and one is pending afterwards exactly when it was
/// started, or was pending before and neither ran out nor was cancelled.
pub proof fn lemma_one_timer_at_most(state: FadeState, event: FadeEvent)
    ensures
        state.actions(event).cancel_timer ==> state.timer_pending(),
        state.actions(event).start_timer ==> !state.timer_pending() || state.actions(
            event,
        ).cancel_timer,
        state.after(event).timer_pending() <==> state.actions(event).start_timer || (
        state.timer_pending() && event != FadeEvent::TimerElapsed && !state.actions(
            event,
        ).cancel_timer),
{
}

/// Activity always ends with the button in full sight and a fresh timer,
/// whatever the state was.
pub proof fn lemma_activity_shows_the_button(state: FadeState)
    ensures
        state.after(FadeEvent::Activity) == FadeState::Visible,
        state.actions(FadeEvent::Activity).show_button,
        state.actions(FadeEvent::Activity).start_timer,
        !state.actions(FadeEvent::Activity).begin_fade,
{
}

/// The button fades only when its timer runs out while it is visible, and
/// then nothing else is done; a visible button left alone goes through
/// fading to idle.
pub proof fn lemma_fade_follows_the_timer(state: FadeState, event: FadeEvent)
    ensures
        state.actions(event).begin_fade <==> state == FadeState::Visible && event
            == FadeEvent::TimerElapsed,
        state.actions(event).begin_fade ==> {
            &&& !state.actions(event).cancel_timer
            &&& !state.actions(event).show_button
            &&& !state.actions(event).start_timer
        },
        FadeState::Visible.after(FadeEvent::TimerElapsed).after(FadeEvent::FadeFinished)
            == FadeState::Idle,
{
}

} // verus!
