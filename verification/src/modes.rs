//! Process-level mode selection: one startup choice picks exactly one
//! of the three front ends, before any long-lived resource is engaged,
//! and the process stays in that mode until it exits.

use vstd::prelude::*;
use vstd::string::StrSliceExecFns;

verus! {

/// The three mutually exclusive front ends.
#[derive(Clone, Copy, Debug, PartialEq, Eq, Structural)]
pub enum Mode {
    /// The network responder.
    Rest,
    /// The console loop.
    Cli,
    /// The desktop view.
    Gui,
}

/// Which mode one startup choice selects: `"1"`, `"2"` and `"3"` name
/// the three front ends; anything else falls back to the desktop view.
pub open spec fn mode_of_choice(s: Seq<char>) -> Mode {
    if s == "1"@ {
        Mode::Rest
    } else if s == "2"@ {
        Mode::Cli
    } else if s == "3"@ {
        Mode::Gui
    } else {
        Mode::Gui
    }
}

/// Whether the choice named a mode, rather than falling back.
pub open spec fn choice_recognized(s: Seq<char>) -> bool {
    s == "1"@ || s == "2"@ || s == "3"@
}

/// Resolves the startup choice into a mode, and says whether the choice
/// was recognized — an unrecognized one falls back to the desktop view,
/// and the caller may warn before proceeding.
pub fn select_mode(choice: &str) -> (r: (Mode, bool))
    ensures
        r.0 == mode_of_choice(choice@),
        r.1 == choice_recognized(choice@),
{
    proof {
        reveal_strlit("1");
        reveal_strlit("2");
        reveal_strlit("3");
    }
    let n = choice.unicode_len();
    if n == 1 {
        let c = choice.get_char(0);
        if c == '1' {
            proof {
                assert(choice@ =~= "1"@);
            }
            (Mode::Rest, true)
        } else if c == '2' {
            proof {
                assert(choice@ =~= "2"@);
            }
            (Mode::Cli, true)
        } else if c == '3' {
            proof {
                assert(choice@ =~= "3"@);
            }
            (Mode::Gui, true)
        } else {
            proof {
                assert(choice@[0] != "1"@[0]);
                assert(choice@[0] != "2"@[0]);
                assert(choice@[0] != "3"@[0]);
            }
            (Mode::Gui, false)
        }
    } else {
        proof {
            assert(choice@.len() != "1"@.len());
            assert(choice@.len() != "2"@.len());
            assert(choice@.len() != "3"@.len());
        }
        (Mode::Gui, false)
    }
}

/// The process's place in mode selection: still undecided, or settled
/// in one terminal operating mode.
#[derive(Clone, Copy, Debug, PartialEq, Eq, Structural)]
pub enum ModeState {
    Unselected,
    Selected(Mode),
}

impl ModeState {
    /// Feeds one startup choice into the state machine. From
    /// `Unselected` the process settles into exactly the chosen mode;
    /// once selected, no further choice switches it. Returns whether
    /// this call both decided the mode and found the choice recognized.
    pub fn apply_choice(&mut self, choice: &str) -> (recognized: bool)
        ensures
            *old(self) is Unselected ==> (*final(self) == ModeState::Selected(
                mode_of_choice(choice@),
            ) && recognized == choice_recognized(choice@)),
            *old(self) is Selected ==> (*final(self) == *old(self) && !recognized),
    {
        match self {
            ModeState::Unselected => {
                let (mode, recognized) = select_mode(choice);
                *self = ModeState::Selected(mode);
                recognized
            },
            ModeState::Selected(_) => false,
        }
    }
}

} // verus!
