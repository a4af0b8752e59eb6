//! The composition engine's outcome for one key press. The engine itself
//! is an outside collaborator; the core only translates its outcomes.

use vstd::prelude::*;

verus! {

/// What the composition engine decided for one key press.
///
/// Every variant is a valid steady-state result; none is an error.
#[derive(Clone, Copy, PartialEq, Eq, Structural, Debug)]
pub enum InputResult {
    /// The key is none of the engine's business: hand it back to normal
    /// dispatch.
    Bypass,
    /// The engine swallowed the key without visible effect.
    Consume,
    /// Commit a character, then hand the key back to normal dispatch.
    CommitBypass(char),
    /// Commit a character and swallow the key.
    Commit(char),
    /// Show a character as in-progress preedit text.
    Preedit(char),
    /// Commit the first character and show the second as preedit; the
    /// preedit update must be observed before the commit.
    CommitPreedit(char, char),
}

} // verus!
