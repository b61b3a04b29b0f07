//! Decoding of the upstream wire format's numeric fields.
//!
//! Heights arrive as decimal strings; a non-numeric value is a decode
//! error.  `dec_value` is the mathematical reading of a digit string,
//! and `parse_decimal` is proved to return exactly that reading on
//! exactly the well-formed inputs that fit in an `i64`.

use vstd::prelude::*;
use crate::errors::IndexError;
use crate::records::IndexedRecord;

verus! {

/// An ASCII decimal digit `'0'..='9'`.
pub open spec fn is_dec_digit(b: u8) -> bool {
    48 <= b && b <= 57
}

/// The numeric value of one ASCII digit.
pub open spec fn digit_value(b: u8) -> int {
    b as int - 48
}

/// Every byte of `s` is an ASCII decimal digit.
pub open spec fn all_dec_digits(s: Seq<u8>) -> bool {
    forall|i: int| 0 <= i < s.len() ==> is_dec_digit(s[i])
}

/// `s` is a well-formed decimal string: non-empty and all digits.
pub open spec fn is_dec_seq(s: Seq<u8>) -> bool {
    s.len() > 0 && all_dec_digits(s)
}

/// The integer a digit string denotes, most significant digit first.
pub open spec fn dec_value(s: Seq<u8>) -> int
    decreases s.len(),
{
    if s.len() == 0 {
        0
    } else {
        dec_value(s.drop_last()) * 10 + digit_value(s.last())
    }
}

proof fn lemma_dec_value_nonneg(s: Seq<u8>)
    requires
        all_dec_digits(s),
    ensures
        dec_value(s) >= 0,
    decreases s.len(),
{
    if s.len() > 0 {
        assert forall|j: int| 0 <= j < s.drop_last().len() implies is_dec_digit(
            s.drop_last()[j],
        ) by {
            assert(s.drop_last()[j] == s[j]);
        }
        lemma_dec_value_nonneg(s.drop_last());
    }
}

/// Reading more digits never decreases the value: the value of a prefix
/// of a digit string is at most the value of the whole string.
proof fn lemma_dec_value_prefix(s: Seq<u8>, i: int)
    requires
        all_dec_digits(s),
        0 <= i <= s.len(),
    ensures
        dec_value(s.subrange(0, i)) <= dec_value(s),
    decreases s.len() - i,
{
    if i == s.len() {
        assert(s.subrange(0, i) =~= s);
    } else {
        let p = s.subrange(0, i);
        let q = s.subrange(0, i + 1);
        assert(q.drop_last() =~= p);
        assert(q.last() == s[i]);
        assert forall|j: int| 0 <= j < p.len() implies is_dec_digit(p[j]) by {
            assert(p[j] == s[j]);
        }
        lemma_dec_value_nonneg(p);
        assert(dec_value(q) == dec_value(p) * 10 + digit_value(s[i]));
        lemma_dec_value_prefix(s, i + 1);
    }
}

/// Parses a decimal string into an `i64`.
///
/// Succeeds exactly on non-empty all-digit inputs whose value fits in
/// an `i64`, and then returns the denoted value; everything else is a
/// `DecodeError`.
pub fn parse_decimal(s: &[u8]) -> (r: Result<i64, IndexError>)
    ensures
        r is Ok <==> is_dec_seq(s@) && dec_value(s@) <= i64::MAX,
        r is Ok ==> r->Ok_0 == dec_value(s@),
        r is Err ==> r->Err_0 == IndexError::DecodeError,
{
    let n = s.len();
    if n == 0 {
        return Err(IndexError::DecodeError);
    }
    let mut acc: i64 = 0;
    let mut i: usize = 0;
    while i < n
        invariant
            n == s@.len(),
            0 <= i <= n,
            forall|j: int| 0 <= j < i ==> is_dec_digit(s@[j]),
            0 <= acc,
            acc == dec_value(s@.subrange(0, i as int)),
        decreases n - i,
    {
        let b = s[i];
        if b < 48 || b > 57 {
            return Err(IndexError::DecodeError);
        }
        let d = (b - 48) as i64;
        proof {
            let p = s@.subrange(0, i as int);
            let q = s@.subrange(0, i as int + 1);
            assert(q.drop_last() =~= p);
            assert(q.last() == s@[i as int]);
            assert(dec_value(q) == acc * 10 + d);
        }
        if acc > 922337203685477580 || (acc == 922337203685477580 && d > 7) {
            proof {
                if is_dec_seq(s@) {
                    lemma_dec_value_prefix(s@, i as int + 1);
                }
            }
            return Err(IndexError::DecodeError);
        }
        acc = acc * 10 + d;
        i = i + 1;
    }
    proof {
        assert(s@.subrange(0, n as int) =~= s@);
    }
    Ok(acc)
}

/// Decodes one block response into its typed record: the header's
/// height read from its decimal string, paired with the proposer
/// identifier extracted beside it.
pub fn decode_block_header(height_digits: &[u8], proposer: String) -> (r: Result<
    IndexedRecord,
    IndexError,
>)
    ensures
        r is Ok <==> is_dec_seq(height_digits@) && dec_value(height_digits@) <= i64::MAX,
        r is Ok ==> r->Ok_0.height == dec_value(height_digits@) && r->Ok_0.proposer == proposer,
        r is Err ==> r->Err_0 == IndexError::DecodeError,
{
    match parse_decimal(height_digits) {
        Ok(height) => Ok(IndexedRecord::new(height, proposer)),
        Err(e) => Err(e),
    }
}

} // verus!
