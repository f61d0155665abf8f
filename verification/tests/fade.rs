use waypin::{FadeActions, FadeEvent, FadeState, FADE_DELAY_SECONDS};

const NOTHING: FadeActions =
    FadeActions { cancel_timer: false, show_button: false, start_timer: false, begin_fade: false };

#[test]
fn the_button_fades_after_three_seconds() {
    assert_eq!(FADE_DELAY_SECONDS, 3);
    assert_eq!(FadeState::new(), FadeState::Idle);
}

#[test]
fn the_first_activity_shows_the_button_and_starts_the_timer() {
    let (state, actions) = FadeState::new().on_event(FadeEvent::Activity);
    assert_eq!(state, FadeState::Visible);
    assert_eq!(
        actions,
        FadeActions { cancel_timer: false, show_button: true, start_timer: true, begin_fade: false }
    );
}

#[test]
fn activity_while_visible_restarts_the_timer() {
    let (state, actions) = FadeState::Visible.on_event(FadeEvent::Activity);
    assert_eq!(state, FadeState::Visible);
    assert_eq!(
        actions,
        FadeActions { cancel_timer: true, show_button: true, start_timer: true, begin_fade: false }
    );
}

#[test]
fn the_timer_lets_a_visible_button_fade() {
    let (state, actions) = FadeState::Visible.on_event(FadeEvent::TimerElapsed);
    assert_eq!(state, FadeState::FadingOut);
    assert_eq!(
        actions,
        FadeActions { cancel_timer: false, show_button: false, start_timer: false, begin_fade: true }
    );
    let (state, actions) = state.on_event(FadeEvent::FadeFinished);
    assert_eq!(state, FadeState::Idle);
    assert_eq!(actions, NOTHING);
}

#[test]
fn activity_during_the_fade_brings_the_button_back() {
    let (state, actions) = FadeState::FadingOut.on_event(FadeEvent::Activity);
    assert_eq!(state, FadeState::Visible);
    assert_eq!(
        actions,
        FadeActions { cancel_timer: false, show_button: true, start_timer: true, begin_fade: false }
    );
}

#[test]
fn events_out_of_place_change_nothing() {
    assert_eq!(FadeState::Idle.on_event(FadeEvent::TimerElapsed), (FadeState::Idle, NOTHING));
    assert_eq!(FadeState::Idle.on_event(FadeEvent::FadeFinished), (FadeState::Idle, NOTHING));
    assert_eq!(FadeState::Visible.on_event(FadeEvent::FadeFinished), (FadeState::Visible, NOTHING));
    assert_eq!(
        FadeState::FadingOut.on_event(FadeEvent::TimerElapsed),
        (FadeState::FadingOut, NOTHING)
    );
}

#[test]
fn one_timer_at_most_over_every_run_of_events() {
    let events = [FadeEvent::Activity, FadeEvent::TimerElapsed, FadeEvent::FadeFinished];
    for code in 0..729u32 {
        let mut state = FadeState::new();
        let mut timers = 0u32;
        let mut rest = code;
        for _ in 0..6 {
            let event = events[(rest % 3) as usize];
            rest /= 3;
            if event == FadeEvent::TimerElapsed && timers == 0 {
                continue;
            }
            let (next, actions) = state.on_event(event);
            if event == FadeEvent::TimerElapsed {
                timers -= 1;
            }
            if actions.cancel_timer {
                assert_eq!(timers, 1);
                timers -= 1;
            }
            if actions.start_timer {
                assert_eq!(timers, 0);
                timers += 1;
            }
            assert_eq!(timers == 1, next == FadeState::Visible);
            state = next;
        }
    }
}
