//! The console loop's decisions: which menu entry one line of input
//! names, and what the console shows for one fetch outcome.

use vstd::prelude::*;
use vstd::string::StrSliceExecFns;
use crate::errors::Error;
use crate::errors::error_text;
use crate::models::Instrument;

verus! {

/// How many records the console's listing is bounded to.
pub const CLI_FETCH_LIMIT: usize = 5;

/// The console menu's entries.
#[derive(Clone, Copy, Debug, PartialEq, Eq, Structural)]
pub enum CliChoice {
    /// Show the bounded instrument listing.
    List,
    /// Leave the loop.
    Quit,
    /// Anything else: re-show the menu.
    Invalid,
}

/// Which entry one line of input names: `"1"` lists, `"2"` quits, and
/// every other line re-prompts.
pub open spec fn cli_choice_of(s: Seq<char>) -> CliChoice {
    if s == "1"@ {
        CliChoice::List
    } else if s == "2"@ {
        CliChoice::Quit
    } else {
        CliChoice::Invalid
    }
}

/// Resolves one line of console input into a menu entry.
pub fn parse_cli_choice(input: &str) -> (r: CliChoice)
    ensures
        r == cli_choice_of(input@),
{
    proof {
        reveal_strlit("1");
        reveal_strlit("2");
    }
    let n = input.unicode_len();
    if n == 1 {
        let c = input.get_char(0);
        if c == '1' {
            proof {
                assert(input@ =~= "1"@);
            }
            CliChoice::List
        } else if c == '2' {
            proof {
                assert(input@ =~= "2"@);
            }
            CliChoice::Quit
        } else {
            proof {
                assert(input@[0] != "1"@[0]);
                assert(input@[0] != "2"@[0]);
            }
            CliChoice::Invalid
        }
    } else {
        proof {
            assert(input@.len() != "1"@.len());
            assert(input@.len() != "2"@.len());
        }
        CliChoice::Invalid
    }
}

/// What the console prints for one fetch outcome.
pub enum ConsoleRender {
    /// The fetched records, to be printed one per line.
    Rows(Vec<Instrument>),
    /// The failed fetch's text, to be printed before the menu returns.
    ErrorMessage(String),
}

/// The console's reaction to one fetch outcome: print the records, or
/// print the error's text and carry on. A failed fetch is recoverable —
/// this decision never ends the loop, and no error is swallowed into an
/// empty listing; only the quit entry leaves the loop.
pub fn console_render(fetch: Result<Vec<Instrument>, Error>) -> (r: ConsoleRender)
    ensures
        fetch matches Ok(v) ==> (r matches ConsoleRender::Rows(rows) && rows == v),
        fetch matches Err(e) ==> (r matches ConsoleRender::ErrorMessage(m) && m@ == error_text(e)),
{
    match fetch {
        Ok(v) => ConsoleRender::Rows(v),
        Err(e) => ConsoleRender::ErrorMessage(e.message()),
    }
}

} // verus!
