use raftor::led::{LedAction, Mode};

#[test]
fn mode_delays() {
    assert_eq!(Mode::QuickBlink.delay_millis(), 45);
    assert_eq!(Mode::SlowBlink.delay_millis(), 200);
    assert_eq!(Mode::SteadyOn.delay_millis(), 0);
    assert_eq!(Mode::SteadyOff.delay_millis(), 0);
}

#[test]
fn mode_actions() {
    assert_eq!(Mode::QuickBlink.respective_action(), LedAction::Toggle);
    assert_eq!(Mode::SlowBlink.respective_action(), LedAction::Toggle);
    assert_eq!(Mode::SteadyOn.respective_action(), LedAction::SetHigh);
    assert_eq!(Mode::SteadyOff.respective_action(), LedAction::SetLow);
}

#[test]
fn blinking_twice_restores_the_level_and_steady_modes_hold_it() {
    for level in [false, true] {
        let toggle = Mode::SlowBlink.respective_action();
        assert_eq!(toggle.apply(toggle.apply(level)), level);
        assert_ne!(toggle.apply(level), level);
        assert!(Mode::SteadyOn.respective_action().apply(level));
        assert!(!Mode::SteadyOff.respective_action().apply(level));
    }
}
