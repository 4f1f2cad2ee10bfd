//! Rendering a finished count as one report row.

use crate::count::Count;
use vstd::prelude::*;

verus! {

/// The width every numeric field is right-aligned to.
pub const FIELD_WIDTH: usize = 7;

/// The decimal digit character of `d`.
pub open spec fn digit_char(d: int) -> char
    recommends
        0 <= d <= 9,
{
    if d == 0 {
        '0'
    } else if d == 1 {
        '1'
    } else if d == 2 {
        '2'
    } else if d == 3 {
        '3'
    } else if d == 4 {
        '4'
    } else if d == 5 {
        '5'
    } else if d == 6 {
        '6'
    } else if d == 7 {
        '7'
    } else if d == 8 {
        '8'
    } else {
        '9'
    }
}

/// The decimal digits of `n`, most significant first, no sign and no
/// leading zero (a single `'0'` for 0).
pub open spec fn dec_rep(n: int) -> Seq<char>
    recommends
        n >= 0,
    decreases n,
{
    if n < 10 {
        seq![digit_char(n)]
    } else {
        dec_rep(n / 10) + seq![digit_char(n % 10)]
    }
}

/// `k` spaces (none for `k <= 0`).
pub open spec fn spaces(k: int) -> Seq<char>
    decreases k,
{
    if k <= 0 {
        Seq::empty()
    } else {
        spaces(k - 1) + seq![' ']
    }
}

/// One printed numeric field: a single separating space, then the value
/// right-aligned to [`FIELD_WIDTH`] columns.
pub open spec fn field_rep(n: int) -> Seq<char> {
    seq![' '] + spaces(FIELD_WIDTH - dec_rep(n).len()) + dec_rep(n)
}

/// One report row: the present metrics in the fixed order lines, words,
/// chars, then a space and the input's name if it has one, then a
/// newline. Absent metrics leave no column at all.
pub open spec fn row_rep(c: Count, name: Option<Seq<char>>) -> Seq<char> {
    (match c.lines {
        Some(l) => field_rep(l as int),
        None => Seq::empty(),
    }) + (match c.words {
        Some(w) => field_rep(w as int),
        None => Seq::empty(),
    }) + (match c.chars {
        Some(ch) => field_rep(ch as int),
        None => Seq::empty(),
    }) + (match name {
        Some(nm) => seq![' '] + nm,
        None => Seq::empty(),
    }) + seq!['\n']
}

/// The single-character string of one decimal digit.
fn digit_str(d: usize) -> (s: &'static str)
    requires
        d <= 9,
    ensures
        s@ == seq![digit_char(d as int)],
{
    if d == 0 {
        proof {
            reveal_strlit("0");
            assert(("0")@ =~= seq![digit_char(0)]);
        }
        "0"
    } else if d == 1 {
        proof {
            reveal_strlit("1");
            assert(("1")@ =~= seq![digit_char(1)]);
        }
        "1"
    } else if d == 2 {
        proof {
            reveal_strlit("2");
            assert(("2")@ =~= seq![digit_char(2)]);
        }
        "2"
    } else if d == 3 {
        proof {
            reveal_strlit("3");
            assert(("3")@ =~= seq![digit_char(3)]);
        }
        "3"
    } else if d == 4 {
        proof {
            reveal_strlit("4");
            assert(("4")@ =~= seq![digit_char(4)]);
        }
        "4"
    } else if d == 5 {
        proof {
            reveal_strlit("5");
            assert(("5")@ =~= seq![digit_char(5)]);
        }
        "5"
    } else if d == 6 {
        proof {
            reveal_strlit("6");
            assert(("6")@ =~= seq![digit_char(6)]);
        }
        "6"
    } else if d == 7 {
        proof {
            reveal_strlit("7");
            assert(("7")@ =~= seq![digit_char(7)]);
        }
        "7"
    } else if d == 8 {
        proof {
            reveal_strlit("8");
            assert(("8")@ =~= seq![digit_char(8)]);
        }
        "8"
    } else {
        proof {
            reveal_strlit("9");
            assert(("9")@ =~= seq![digit_char(9)]);
        }
        "9"
    }
}

/// Renders `n` in decimal.
pub fn render_number(n: usize) -> (s: String)
    ensures
        s@ == dec_rep(n as int),
    decreases n,
{
    if n < 10 {
        String::from_str(digit_str(n))
    } else {
        let mut s = render_number(n / 10);
        s.append(digit_str(n % 10));
        s
    }
}

/// Renders one numeric field of the row: a separating space and `n`
/// right-aligned to [`FIELD_WIDTH`] columns.
fn render_field(n: usize) -> (s: String)
    ensures
        s@ == field_rep(n as int),
{
    let digits = render_number(n);
    let dlen = digits.as_str().unicode_len();
    let total_pad: usize = if dlen >= FIELD_WIDTH {
        0
    } else {
        FIELD_WIDTH - dlen
    };
    proof {
        reveal_strlit(" ");
        assert((" ")@ =~= seq![' ']);
        assert(spaces(FIELD_WIDTH - dec_rep(n as int).len()) == spaces(total_pad as int));
    }
    let mut s = String::from_str(" ");
    let mut pad: usize = 0;
    while pad < total_pad
        invariant
            0 <= pad <= total_pad,
            s@ =~= seq![' '] + spaces(pad as int),
        decreases total_pad - pad,
    {
        s.append(" ");
        proof {
            reveal_strlit(" ");
            assert(s@ =~= seq![' '] + spaces(pad + 1));
        }
        pad = pad + 1;
    }
    s.append(digits.as_str());
    proof {
        assert(s@ =~= field_rep(n as int));
    }
    s
}

/// Renders the report row of one finished count: the present metrics in
/// the order lines, words, chars, each as a right-aligned field, then
/// the input's name if it has one, then a newline.
pub fn render_count(cnt: &Count, name: Option<&str>) -> (s: String)
    ensures
        s@ == row_rep(
            *cnt,
            match name {
                Some(nm) => Some(nm@),
                None => None,
            },
        ),
{
    let mut s = String::new();
    match cnt.lines {
        Some(l) => {
            let f = render_field(l);
            s.append(f.as_str());
        },
        None => {},
    }
    match cnt.words {
        Some(w) => {
            let f = render_field(w);
            s.append(f.as_str());
        },
        None => {},
    }
    match cnt.chars {
        Some(ch) => {
            let f = render_field(ch);
            s.append(f.as_str());
        },
        None => {},
    }
    match name {
        Some(nm) => {
            proof {
                reveal_strlit(" ");
                assert((" ")@ =~= seq![' ']);
            }
            s.append(" ");
            s.append(nm);
        },
        None => {},
    }
    proof {
        reveal_strlit("\n");
        assert(("\n")@ =~= seq!['\n']);
    }
    s.append("\n");
    proof {
        assert(s@ =~= row_rep(
            *cnt,
            match name {
                Some(nm) => Some(nm@),
                None => None,
            },
        ));
    }
    s
}

} // verus!
