//! The player's interaction mode and how the build action switches it.
use vstd::prelude::*;

verus! {

/// Whether the player is moving around or building.
#[derive(Clone, Copy, Debug, PartialEq, Eq, Structural)]
pub enum Mode {
    Move,
    Build,
}

/// The outcome of one frame's input: the mode to continue in, and the code of the
/// mode-change signal to emit, if the mode changed.
#[derive(Clone, Copy, Debug, PartialEq, Eq)]
pub struct ModeStep {
    pub mode: Mode,
    pub signal: Option<i32>,
}

impl Mode {
    /// The other mode.
    pub open spec fn spec_toggled(self) -> Mode {
        match self {
            Mode::Move => Mode::Build,
            Mode::Build => Mode::Move,
        }
    }

    /// The number that stands for the mode in a mode-change signal.
    pub open spec fn spec_code(self) -> i32 {
        match self {
            Mode::Move => 0,
            Mode::Build => 1,
        }
    }

    /// Switches to the other mode.
    pub fn toggled(self) -> (m: Mode)
        ensures
            m == self.spec_toggled(),
            m != self,
    {
        match self {
            Mode::Move => Mode::Build,
            Mode::Build => Mode::Move,
        }
    }

    /// The number that stands for the mode in a mode-change signal.
    pub fn code(self) -> (c: i32)
        ensures
            c == self.spec_code(),
    {
        match self {
            Mode::Move => 0,
            Mode::Build => 1,
        }
    }

    /// Decides one frame: when the build action was just pressed, the mode switches
    /// and the new mode's code is signalled; otherwise nothing changes.
    pub fn on_build_action(self, just_pressed: bool) -> (step: ModeStep)
        ensures
            just_pressed ==> step.mode == self.spec_toggled() && step.signal == Some(
                self.spec_toggled().spec_code(),
            ),
            !just_pressed ==> step.mode == self && step.signal.is_none(),
    {
        if just_pressed {
            let mode = self.toggled();
            ModeStep { mode, signal: Some(mode.code()) }
        } else {
            ModeStep { mode: self, signal: None }
        }
    }
}

} // verus!
