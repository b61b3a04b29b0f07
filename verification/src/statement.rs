//! Building the multi-row insert statement.
//!
//! Each batch is written by one parameterized statement: the statement
//! text carries only placeholders `$1..$2n`, two per record, and the
//! proposer and height values travel as typed parameters.  Nothing of
//! the fetched data is ever concatenated into the statement text.

use vstd::prelude::*;
use vstd::string::StringExecFns;

verus! {

/// The character of one decimal digit.
pub open spec fn digit_char(d: int) -> char {
    if d == 0 {
        '0'
    } else if d == 1 {
        '1'
    } else if d == 2 {
        '2'
    } else if d == 3 {
        '3'
    } else if d == 4 {
        '4'
    } else if d == 5 {
        '5'
    } else if d == 6 {
        '6'
    } else if d == 7 {
        '7'
    } else if d == 8 {
        '8'
    } else {
        '9'
    }
}

/// The decimal rendering of `n`, most significant digit first.
pub open spec fn spec_dec_chars(n: nat) -> Seq<char>
    decreases n,
{
    if n < 10 {
        seq![digit_char(n as int)]
    } else {
        spec_dec_chars(n / 10).push(digit_char((n % 10) as int))
    }
}

/// Appends the decimal rendering of `n` to `out`.
pub fn push_dec_chars(n: u64, out: &mut String)
    ensures
        final(out)@ == old(out)@ + spec_dec_chars(n as nat),
    decreases n,
{
    if n >= 10 {
        push_dec_chars(n / 10, out);
    }
    let d = n % 10;
    let s: &str = match d {
        0 => "0",
        1 => "1",
        2 => "2",
        3 => "3",
        4 => "4",
        5 => "5",
        6 => "6",
        7 => "7",
        8 => "8",
        _ => "9",
    };
    proof {
        reveal_strlit("0");
        reveal_strlit("1");
        reveal_strlit("2");
        reveal_strlit("3");
        reveal_strlit("4");
        reveal_strlit("5");
        reveal_strlit("6");
        reveal_strlit("7");
        reveal_strlit("8");
        reveal_strlit("9");
        assert(s@ =~= seq![digit_char(d as int)]);
    }
    out.append(s);
    proof {
        assert(final(out)@ =~= old(out)@ + spec_dec_chars(n as nat));
    }
}

/// The placeholder group of row `k`: `($a,$b)` with `a = 2k + 1` and
/// `b = 2k + 2`.
pub open spec fn spec_row_group(k: nat) -> Seq<char> {
    "($"@ + spec_dec_chars(2 * k + 1) + ",$"@ + spec_dec_chars(2 * k + 2) + ")"@
}

/// The placeholder groups of the first `n` rows, comma separated.
pub open spec fn spec_value_groups(n: nat) -> Seq<char>
    decreases n,
{
    if n == 0 {
        Seq::empty()
    } else if n == 1 {
        spec_row_group(0)
    } else {
        spec_value_groups((n - 1) as nat) + ","@ + spec_row_group((n - 1) as nat)
    }
}

/// The full parameterized multi-row insert statement for `n` records.
pub open spec fn spec_insert_statement(n: nat) -> Seq<char> {
    "INSERT INTO proposer_to_height(proposer, height) VALUES "@ + spec_value_groups(n)
}

/// Builds the one statement that inserts a whole batch of `n` records,
/// with two placeholders per record and no inlined values.
pub fn build_insert_statement(n: usize) -> (r: String)
    requires
        1 <= n,
        2 * n <= u64::MAX,
    ensures
        r@ == spec_insert_statement(n as nat),
{
    let mut out = "INSERT INTO proposer_to_height(proposer, height) VALUES ".to_owned();
    proof {
        assert(out@ =~= spec_insert_statement(0));
    }
    let mut i: usize = 0;
    while i < n
        invariant
            1 <= n,
            2 * n <= u64::MAX,
            0 <= i <= n,
            out@ == spec_insert_statement(i as nat),
        decreases n - i,
    {
        if i > 0 {
            out.append(",");
        }
        out.append("($");
        push_dec_chars(2 * (i as u64) + 1, &mut out);
        out.append(",$");
        push_dec_chars(2 * (i as u64) + 2, &mut out);
        out.append(")");
        proof {
            assert(out@ =~= spec_insert_statement(i as nat + 1));
        }
        i = i + 1;
    }
    out
}

} // verus!
