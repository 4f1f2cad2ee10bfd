//! The aggregator: folding per-input outcomes into the running total.

use crate::count::{totals_add, totals_fits, Count};
use crate::render::{render_count, row_rep};
use vstd::prelude::*;

verus! {

/// One step of the aggregator, after one input was attempted. An input
/// that produced no count (it could not be opened or read) prints no row
/// and leaves the total unchanged; a counted input yields its printed
/// row and joins the total metric-wise. `None` exactly when folding the
/// count in would leave the machine word.
pub fn fold_input(total: Count, outcome: Option<Count>, name: Option<&str>) -> (r: Option<
    (Count, Option<String>),
>)
    ensures
        ({
            let name_rep = match name {
                Some(nm) => Some(nm@),
                None => None,
            };
            match outcome {
                None => match r {
                    Some((t, row)) => t == total && row is None,
                    None => false,
                },
                Some(c) => match r {
                    Some((t, row)) => t@ == totals_add(total@, c@) && totals_fits(
                        totals_add(total@, c@),
                    ) && (match row {
                        Some(s) => s@ == row_rep(c, name_rep),
                        None => false,
                    }),
                    None => !totals_fits(totals_add(total@, c@)),
                },
            }
        }),
{
    match outcome {
        None => Some((total, None)),
        Some(c) => match total.try_add(c) {
            Some(t) => Some((t, Some(render_count(&c, name)))),
            None => None,
        },
    }
}

/// The error line of one failed input: the failure description, with
/// the input's name and a separating colon before it when the input has
/// a name. Standard input has no name and gets no prefix.
pub fn error_line(name: Option<&str>, msg: &str) -> (s: String)
    ensures
        s@ == (match name {
            Some(nm) => nm@ + (": ")@ + msg@,
            None => msg@,
        }),
{
    let mut s = String::new();
    match name {
        Some(nm) => {
            s.append(nm);
            s.append(": ");
        },
        None => {},
    }
    s.append(msg);
    proof {
        assert(s@ =~= (match name {
            Some(nm) => nm@ + (": ")@ + msg@,
            None => msg@,
        }));
    }
    s
}

/// The total row is printed exactly when more than one input was
/// supplied, however many of them could be counted.
pub fn needs_total(num_inputs: usize) -> (b: bool)
    ensures
        b <==> num_inputs > 1,
{
    num_inputs > 1
}

} // verus!
