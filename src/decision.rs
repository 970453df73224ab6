use vstd::prelude::*;

verus! {

/// What the user decided when asked whether to terminate the command.
#[derive(Clone, Copy, Debug, PartialEq, Eq, Structural)]
pub enum SigIntAction {
    /// Resume normal operation.
    Continue,
    /// Interrupt the command and end the program.
    Terminate,
    /// The answer was not understood: ask again.
    Invalid,
}

/// The decision that an answer, already trimmed, stands for: exactly `Y`
/// terminates; `n`, `N` or nothing continues; anything else is invalid.
pub open spec fn decision_for(answer: Seq<char>) -> SigIntAction {
    if answer == seq!['Y'] {
        SigIntAction::Terminate
    } else if answer == seq!['n'] || answer == seq!['N'] || answer.len() == 0 {
        SigIntAction::Continue
    } else {
        SigIntAction::Invalid
    }
}

/// What `str::trim` leaves of a line.
pub uninterp spec fn trimmed_of(line: Seq<char>) -> Seq<char>;

/// Relies on `str::trim`: the line without its leading and trailing
/// whitespace, the trailing newline included.
#[verifier::external_body]
fn trim_line(line: &str) -> (r: &str)
    ensures
        r@ == trimmed_of(line@),
{
    line.trim()
}

/// Classifies an answer that has already been trimmed.
pub fn classify_answer(answer: &str) -> (r: SigIntAction)
    ensures
        r == decision_for(answer@),
{
    let n = answer.unicode_len();
    if n == 0 {
        SigIntAction::Continue
    } else if n == 1 {
        let c = answer.get_char(0);
        assert(answer@ =~= seq![c]);
        if c == 'Y' {
            SigIntAction::Terminate
        } else if c == 'n' || c == 'N' {
            SigIntAction::Continue
        } else {
            SigIntAction::Invalid
        }
    } else {
        SigIntAction::Invalid
    }
}

/// Classifies a line read from the terminal as an answer to the prompt:
/// surrounding whitespace, the newline included, does not count.
pub fn answer_decision(line: &str) -> (r: SigIntAction)
    ensures
        r == decision_for(trimmed_of(line@)),
{
    classify_answer(trim_line(line))
}

} // verus!
