//! The stated laws of the counting engine.

use crate::count::{fold_lines, initial_totals, lemma_fold_lines_grows, line_totals, opt_add,
    totals_add, Totals};
use crate::modes::{chars_active, lines_active, words_active, Flags};
use vstd::prelude::*;
use vstd::utf8::{encode_utf8, is_ascii_chars, is_ascii_chars_encode_utf8};

verus! {

/// The total of a run, as the reporter computes it: the per-input counts
/// folded into `t` metric-wise, in input order.
pub open spec fn fold_counts(t: Totals, cs: Seq<Totals>) -> Totals
    decreases cs.len(),
{
    if cs.len() == 0 {
        t
    } else {
        fold_counts(totals_add(t, cs[0]), cs.drop_first())
    }
}

/// The metric-wise sum of a sequence of accumulator values; absent
/// anywhere means absent in the sum.
pub open spec fn sum_opts(os: Seq<Option<int>>) -> Option<int>
    decreases os.len(),
{
    if os.len() == 0 {
        Some(0)
    } else {
        opt_add(os[0], sum_opts(os.drop_first()))
    }
}

/// Folding the per-input counts into a running total, in input order,
/// yields per metric exactly the sum of the individually computed
/// counts, whatever the activation set.
pub proof fn lemma_fold_is_metric_sum(t: Totals, cs: Seq<Totals>)
    ensures
        fold_counts(t, cs).lines == opt_add(t.lines, sum_opts(cs.map_values(|c: Totals| c.lines))),
        fold_counts(t, cs).words == opt_add(t.words, sum_opts(cs.map_values(|c: Totals| c.words))),
        fold_counts(t, cs).chars == opt_add(t.chars, sum_opts(cs.map_values(|c: Totals| c.chars))),
    decreases cs.len(),
{
    if cs.len() == 0 {
    } else {
        let t1 = totals_add(t, cs[0]);
        lemma_fold_is_metric_sum(t1, cs.drop_first());
        assert(cs.drop_first().map_values(|c: Totals| c.lines) =~= cs.map_values(
            |c: Totals| c.lines,
        ).drop_first());
        assert(cs.drop_first().map_values(|c: Totals| c.words) =~= cs.map_values(
            |c: Totals| c.words,
        ).drop_first());
        assert(cs.drop_first().map_values(|c: Totals| c.chars) =~= cs.map_values(
            |c: Totals| c.chars,
        ).drop_first());
    }
}

/// The shape of a count is fixed once the active metric set is chosen:
/// whatever stream is consumed, exactly the metrics the flags activate
/// are present in the result.
pub proof fn lemma_shape_fixed(f: Flags, lines: Seq<Seq<char>>, is_char: bool)
    ensures
        fold_lines(initial_totals(f), lines, is_char).lines is Some <==> lines_active(f),
        fold_lines(initial_totals(f), lines, is_char).words is Some <==> words_active(f),
        fold_lines(initial_totals(f), lines, is_char).chars is Some <==> chars_active(f),
{
    lemma_fold_lines_grows(initial_totals(f), lines, is_char);
}

/// Counting is a pure function of the stream content: two reads that
/// yield the same lines yield the same count.
pub proof fn lemma_count_deterministic(a: Seq<Seq<char>>, b: Seq<Seq<char>>, t: Totals, is_char: bool)
    requires
        a =~~= b,
    ensures
        fold_lines(t, a, is_char) == fold_lines(t, b, is_char),
{
}

/// On a stream of single-byte characters the Unicode unit and the byte
/// unit agree: the two counts are equal.
pub proof fn lemma_single_byte_units(t: Totals, lines: Seq<Seq<char>>)
    requires
        forall|i: int| 0 <= i < lines.len() ==> is_ascii_chars(#[trigger] lines[i]),
    ensures
        fold_lines(t, lines, true) == fold_lines(t, lines, false),
    decreases lines.len(),
{
    if lines.len() > 0 {
        is_ascii_chars_encode_utf8(lines[0]);
        assert(encode_utf8(lines[0]).len() == lines[0].len());
        assert(line_totals(lines[0], true) == line_totals(lines[0], false));
        lemma_single_byte_units(totals_add(t, line_totals(lines[0], true)), lines.drop_first());
    }
}

} // verus!
