//! The `Count` record and the stream-counting engine.

use crate::modes::{chars_active, lines_active, words_active, Flags};
use crate::words::{line_words, word_count};
use vstd::prelude::*;
use vstd::utf8::encode_utf8;

verus! {

/// The mathematical model of a [`Count`]: per metric, the value of the
/// accumulator, or `None` where the metric is inactive. Combining keeps
/// absent metrics absent, so the shape of a record never changes.
pub struct Totals {
    pub lines: Option<int>,
    pub words: Option<int>,
    pub chars: Option<int>,
}

/// An accumulator value as a mathematical integer.
pub open spec fn opt_int(o: Option<usize>) -> Option<int> {
    match o {
        Some(u) => Some(u as int),
        None => None,
    }
}

/// Metric-wise addition: present values add, absent stays absent.
pub open spec fn opt_add(a: Option<int>, b: Option<int>) -> Option<int> {
    match (a, b) {
        (Some(x), Some(y)) => Some(x + y),
        _ => None,
    }
}

/// Whether a (present) accumulator value fits the machine word.
pub open spec fn opt_fits(o: Option<int>) -> bool {
    match o {
        Some(v) => 0 <= v <= usize::MAX,
        None => true,
    }
}

/// Metric-wise sum of two count models.
pub open spec fn totals_add(a: Totals, b: Totals) -> Totals {
    Totals {
        lines: opt_add(a.lines, b.lines),
        words: opt_add(a.words, b.words),
        chars: opt_add(a.chars, b.chars),
    }
}

/// Whether every present accumulator of `t` fits the machine word.
pub open spec fn totals_fits(t: Totals) -> bool {
    opt_fits(t.lines) && opt_fits(t.words) && opt_fits(t.chars)
}

/// The zeroed count of a run with flags `f`: each active metric present
/// at 0, each inactive metric absent.
pub open spec fn initial_totals(f: Flags) -> Totals {
    Totals {
        lines: if lines_active(f) {
            Some(0)
        } else {
            None
        },
        words: if words_active(f) {
            Some(0)
        } else {
            None
        },
        chars: if chars_active(f) {
            Some(0)
        } else {
            None
        },
    }
}

/// One count record: per metric, the accumulated value, or `None` where
/// the metric is inactive. Inactive metrics are never computed and never
/// printed; they are not the same as a zero.
#[derive(Clone, Copy, Debug)]
pub struct Count {
    pub lines: Option<usize>,
    pub words: Option<usize>,
    pub chars: Option<usize>,
}

impl View for Count {
    type V = Totals;

    open spec fn view(&self) -> Totals {
        Totals {
            lines: opt_int(self.lines),
            words: opt_int(self.words),
            chars: opt_int(self.chars),
        }
    }
}

impl Count {
    /// The zeroed count of a run with flags `args`: with no flag set the
    /// default metrics {lines, words, chars-slot} are all present; else
    /// exactly the requested metrics are present.
    pub fn new(args: &Flags) -> (c: Count)
        ensures
            c@ == initial_totals(*args),
    {
        if !(args.is_char || args.is_byte || args.is_line || args.is_word) {
            Count { lines: Some(0), chars: Some(0), words: Some(0) }
        } else {
            Count {
                lines: if args.is_line {
                    Some(0)
                } else {
                    None
                },
                chars: if args.is_char || args.is_byte {
                    Some(0)
                } else {
                    None
                },
                words: if args.is_word {
                    Some(0)
                } else {
                    None
                },
            }
        }
    }

    /// Metric-wise sum of two counts; a metric absent on either side is
    /// absent in the sum. The caller keeps the sums inside the machine
    /// word; counts produced under the same flags share their shape, so
    /// present metrics always meet present metrics.
    pub fn add(self, other: Self) -> (r: Self)
        requires
            totals_fits(totals_add(self@, other@)),
        ensures
            r@ == totals_add(self@, other@),
    {
        Count {
            lines: match (self.lines, other.lines) {
                (Some(a), Some(b)) => Some(a + b),
                _ => None,
            },
            words: match (self.words, other.words) {
                (Some(a), Some(b)) => Some(a + b),
                _ => None,
            },
            chars: match (self.chars, other.chars) {
                (Some(a), Some(b)) => Some(a + b),
                _ => None,
            },
        }
    }

    /// [`Count::add`] behind a run-time overflow test: `None` exactly
    /// when some metric-wise sum would leave the machine word.
    pub fn try_add(self, other: Self) -> (r: Option<Self>)
        ensures
            match r {
                Some(c) => c@ == totals_add(self@, other@) && totals_fits(
                    totals_add(self@, other@),
                ),
                None => !totals_fits(totals_add(self@, other@)),
            },
    {
        let fits = (match (self.lines, other.lines) {
            (Some(a), Some(b)) => a.checked_add(b).is_some(),
            _ => true,
        }) && (match (self.words, other.words) {
            (Some(a), Some(b)) => a.checked_add(b).is_some(),
            _ => true,
        }) && (match (self.chars, other.chars) {
            (Some(a), Some(b)) => a.checked_add(b).is_some(),
            _ => true,
        });
        if fits {
            Some(self.add(other))
        } else {
            None
        }
    }
}

/// A real count always fits the machine word.
pub proof fn lemma_count_fits(c: Count)
    ensures
        totals_fits(c@),
{
}

/// What one line adds to the chars slot, beside the 1 for the stripped
/// newline: its character count under the Unicode unit (`-m`), its byte
/// count under the byte unit (`-c` or the default).
pub open spec fn line_units(line: Seq<char>, is_char: bool) -> int {
    if is_char {
        line.len() as int
    } else {
        encode_utf8(line).len() as int
    }
}

/// What one consumed line contributes to a count: one line, its words,
/// and its units plus one for the newline that terminated it.
pub open spec fn line_totals(line: Seq<char>, is_char: bool) -> Totals {
    Totals {
        lines: Some(1),
        words: Some(word_count(line) as int),
        chars: Some(line_units(line, is_char) + 1),
    }
}

/// Folds one consumed line into `cnt`. Returns `None` exactly when some
/// active accumulator would leave the machine word; the returned count is
/// otherwise the exact metric-wise sum.
pub fn count_line(cnt: Count, line: &str, is_char: bool) -> (r: Option<Count>)
    ensures
        ({
            let t = totals_add(cnt@, line_totals(line@, is_char));
            match r {
                Some(c) => c@ == t && totals_fits(t),
                None => !totals_fits(t),
            }
        }),
{
    let lines = match cnt.lines {
        Some(l) => match l.checked_add(1) {
            Some(l1) => Some(Some(l1)),
            None => None,
        },
        None => Some(None),
    };
    let words = match cnt.words {
        Some(w) => match w.checked_add(line_words(line)) {
            Some(w1) => Some(Some(w1)),
            None => None,
        },
        None => Some(None),
    };
    let chars = match cnt.chars {
        Some(c) => {
            let units = if is_char {
                line.unicode_len()
            } else {
                line.as_bytes().len()
            };
            match c.checked_add(units) {
                Some(c1) => match c1.checked_add(1) {
                    Some(c2) => Some(Some(c2)),
                    None => None,
                },
                None => None,
            }
        },
        None => Some(None),
    };
    match (lines, words, chars) {
        (Some(lines), Some(words), Some(chars)) => Some(Count { lines, words, chars }),
        _ => None,
    }
}

/// The count after consuming `lines` in order, starting from `t`.
pub open spec fn fold_lines(t: Totals, lines: Seq<Seq<char>>, is_char: bool) -> Totals
    decreases lines.len(),
{
    if lines.len() == 0 {
        t
    } else {
        fold_lines(totals_add(t, line_totals(lines[0], is_char)), lines.drop_first(), is_char)
    }
}

/// A count is mutated monotonically as its stream is consumed: folding
/// in more lines never loses a metric's presence and never decreases a
/// present value.
pub proof fn lemma_fold_lines_grows(t: Totals, lines: Seq<Seq<char>>, is_char: bool)
    ensures
        fold_lines(t, lines, is_char).lines is Some <==> t.lines is Some,
        fold_lines(t, lines, is_char).words is Some <==> t.words is Some,
        fold_lines(t, lines, is_char).chars is Some <==> t.chars is Some,
        t.lines is Some ==> fold_lines(t, lines, is_char).lines->0 >= t.lines->0,
        t.words is Some ==> fold_lines(t, lines, is_char).words->0 >= t.words->0,
        t.chars is Some ==> fold_lines(t, lines, is_char).chars->0 >= t.chars->0,
    decreases lines.len(),
{
    if lines.len() > 0 {
        lemma_fold_lines_grows(
            totals_add(t, line_totals(lines[0], is_char)),
            lines.drop_first(),
            is_char,
        );
    }
}

/// The stream counter over the lines of one input: starting from
/// `init_cnt`, folds every line's contribution into the count, in order.
/// Returns `None` exactly when some active accumulator would leave the
/// machine word; the returned count is otherwise the exact fold.
pub fn count(lines: &Vec<String>, init_cnt: Count, is_char: bool) -> (r: Option<Count>)
    ensures
        ({
            let t = fold_lines(init_cnt@, lines.deep_view(), is_char);
            match r {
                Some(c) => c@ == t && totals_fits(t),
                None => !totals_fits(t),
            }
        }),
{
    let ghost all = lines.deep_view();
    let mut cnt = init_cnt;
    let mut idx: usize = 0;
    proof {
        assert(all.skip(0) =~= all);
    }
    while idx < lines.len()
        invariant
            0 <= idx <= lines.len(),
            all == lines.deep_view(),
            all.len() == lines.len(),
            fold_lines(cnt@, all.skip(idx as int), is_char) == fold_lines(init_cnt@, all, is_char),
        decreases lines.len() - idx,
    {
        proof {
            assert(all.skip(idx as int)[0] == all[idx as int]);
            assert(all.skip(idx as int).drop_first() =~= all.skip(idx as int + 1));
            assert(all[idx as int] == lines[idx as int]@);
        }
        match count_line(cnt, &lines[idx], is_char) {
            Some(c) => {
                cnt = c;
            },
            None => {
                proof {
                    lemma_fold_lines_grows(
                        totals_add(cnt@, line_totals(all[idx as int], is_char)),
                        all.skip(idx as int + 1),
                        is_char,
                    );
                }
                return None;
            },
        }
        idx = idx + 1;
    }
    proof {
        assert(all.skip(all.len() as int) =~= Seq::<Seq<char>>::empty());
        lemma_count_fits(cnt);
    }
    Some(cnt)
}

} // verus!
