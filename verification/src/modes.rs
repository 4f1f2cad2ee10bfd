//! The mode resolver: from command-line flags to the active metric set.

use vstd::prelude::*;

verus! {

/// The four metric-selection flags of a run, already parsed from the
/// command line: count characters (`-m`), bytes (`-c`), lines (`-l`),
/// words (`-w`).
#[derive(Clone, Copy, Debug)]
pub struct Flags {
    pub is_char: bool,
    pub is_byte: bool,
    pub is_line: bool,
    pub is_word: bool,
}

/// Whether any metric was requested explicitly.
pub open spec fn any_flag(f: Flags) -> bool {
    f.is_char || f.is_byte || f.is_line || f.is_word
}

/// The line metric is active by default, or when `-l` was given.
pub open spec fn lines_active(f: Flags) -> bool {
    !any_flag(f) || f.is_line
}

/// The word metric is active by default, or when `-w` was given.
pub open spec fn words_active(f: Flags) -> bool {
    !any_flag(f) || f.is_word
}

/// The chars slot (characters or bytes, depending on the unit) is active
/// by default, or when `-m` or `-c` was given. The default counts bytes.
pub open spec fn chars_active(f: Flags) -> bool {
    !any_flag(f) || f.is_char || f.is_byte
}

/// With no flag set, the active metrics are exactly the default set
/// {lines, words, chars slot}, and the chars slot counts bytes, never
/// Unicode characters, since `-m` was not given.
pub proof fn lemma_default_metrics(f: Flags)
    requires
        !any_flag(f),
    ensures
        lines_active(f),
        words_active(f),
        chars_active(f),
        !f.is_char,
{
}

impl Flags {
    /// Builds the flag record; the resolver spec functions above say
    /// which metrics a run with these flags computes.
    pub fn new(is_char: bool, is_byte: bool, is_line: bool, is_word: bool) -> (f: Flags)
        ensures
            f == (Flags { is_char, is_byte, is_line, is_word }),
    {
        Flags { is_char, is_byte, is_line, is_word }
    }
}

} // verus!
