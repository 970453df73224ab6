use vstd::prelude::*;

verus! {

/// Rows used when the terminal's size cannot be found.
pub const DEFAULT_ROWS: u16 = 24;

/// Columns used when the terminal's size cannot be found.
pub const DEFAULT_COLS: u16 = 80;

/// The geometry that the pseudo-terminals are given.
#[derive(Clone, Copy, Debug, PartialEq, Eq, Structural)]
pub struct TermSize {
    pub rows: u16,
    pub cols: u16,
}

/// The size found, or 24 rows by 80 columns when none was found.
pub open spec fn size_or_default_spec(found: Option<TermSize>) -> TermSize {
    match found {
        Some(s) => s,
        None => TermSize { rows: DEFAULT_ROWS, cols: DEFAULT_COLS },
    }
}

/// Relies on `termsize::get`: the size of the terminal on standard output,
/// or `None` when standard output is no terminal or the query fails. It
/// depends on the terminal, so nothing is stated of it.
#[verifier::external_body]
fn query_terminal_size() -> (r: Option<TermSize>) {
    match termsize::get() {
        Some(s) => Some(TermSize { rows: s.rows, cols: s.cols }),
        None => None,
    }
}

/// Falls back to 24 rows by 80 columns when no size was found.
pub fn size_or_default(found: Option<TermSize>) -> (r: TermSize)
    ensures
        r == size_or_default_spec(found),
{
    match found {
        Some(s) => s,
        None => TermSize { rows: DEFAULT_ROWS, cols: DEFAULT_COLS },
    }
}

/// The size of the current terminal, or the default when it cannot be found.
pub fn get_terminal_size() -> (r: TermSize) {
    size_or_default(query_terminal_size())
}

} // verus!
