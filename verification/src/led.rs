use vstd::prelude::*;

verus! {

/// How the status LED shows the node's role.
#[derive(Debug, Clone, Copy, PartialEq, Eq, Structural)]
pub enum Mode {
    QuickBlink,
    SlowBlink,
    SteadyOn,
    SteadyOff,
}

/// What one indication step does to the LED output.
#[derive(Debug, Clone, Copy, PartialEq, Eq, Structural)]
pub enum LedAction {
    /// Invert the output level.
    Toggle,
    /// Drive the output high.
    SetHigh,
    /// Drive the output low.
    SetLow,
}

impl LedAction {
    /// The output level after the action, from the level before it.
    pub open spec fn next_level(self, level: bool) -> bool {
        match self {
            LedAction::Toggle => !level,
            LedAction::SetHigh => true,
            LedAction::SetLow => false,
        }
    }

    /// Applies the action to an output level, `true` being high.
    pub fn apply(&self, level: bool) -> (r: bool)
        ensures
            r == self.next_level(level),
    {
        match self {
            LedAction::Toggle => !level,
            LedAction::SetHigh => true,
            LedAction::SetLow => false,
        }
    }
}

impl Mode {
    /// The pause after each indication step, in milliseconds.
    pub open spec fn delay_spec(self) -> u64 {
        match self {
            Mode::QuickBlink => 45,
            Mode::SlowBlink => 200,
            Mode::SteadyOn | Mode::SteadyOff => 0,
        }
    }

    /// The action of each indication step.
    pub open spec fn action_spec(self) -> LedAction {
        match self {
            Mode::QuickBlink | Mode::SlowBlink => LedAction::Toggle,
            Mode::SteadyOn => LedAction::SetHigh,
            Mode::SteadyOff => LedAction::SetLow,
        }
    }

    /// The pause after each indication step, in milliseconds: the blinking
    /// modes set the blink period, the steady modes do not wait.
    pub fn delay_millis(&self) -> (r: u64)
        ensures
            r == self.delay_spec(),
    {
        match self {
            Mode::QuickBlink => 45,
            Mode::SlowBlink => 200,
            Mode::SteadyOn | Mode::SteadyOff => 0,
        }
    }

    /// The action that one indication step performs on the LED.
    pub fn respective_action(&self) -> (r: LedAction)
        ensures
            r == self.action_spec(),
    {
        match self {
            Mode::QuickBlink | Mode::SlowBlink => LedAction::Toggle,
            Mode::SteadyOn => LedAction::SetHigh,
            Mode::SteadyOff => LedAction::SetLow,
        }
    }
}

/// A blinking mode inverts the LED at every step, so two steps bring it back
/// to where it was, and it pauses between steps; a steady mode holds one
/// level whatever the level before, and does not pause.
pub proof fn lemma_indication(mode: Mode, level: bool)
    ensures
        (mode is QuickBlink || mode is SlowBlink) ==> mode.action_spec().next_level(
            mode.action_spec().next_level(level),
        ) == level && mode.action_spec().next_level(level) != level && mode.delay_spec() > 0,
        mode is SteadyOn ==> mode.action_spec().next_level(level) && mode.delay_spec() == 0,
        mode is SteadyOff ==> !mode.action_spec().next_level(level) && mode.delay_spec() == 0,
{
}

/// The pause and action of each mode: a quick blink toggles every 45
/// milliseconds, a slow blink every 200; steadily on drives the LED high and
/// steadily off drives it low, neither pausing.
pub proof fn lemma_mode_steps()
    ensures
        Mode::QuickBlink.delay_spec() == 45 && Mode::QuickBlink.action_spec() == LedAction::Toggle,
        Mode::SlowBlink.delay_spec() == 200 && Mode::SlowBlink.action_spec() == LedAction::Toggle,
        Mode::SteadyOn.delay_spec() == 0 && Mode::SteadyOn.action_spec() == LedAction::SetHigh,
        Mode::SteadyOff.delay_spec() == 0 && Mode::SteadyOff.action_spec() == LedAction::SetLow,
{
}

} // verus!
