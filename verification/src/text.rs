//! Verified text utilities: string equality by characters, decimal numerals,
//! and locating the first colon of an `owner:branch` token.

use vstd::prelude::*;
use vstd::string::StrSliceExecFns;

verus! {

/// Character-by-character string equality, decided over the views.
pub fn str_eq(a: &str, b: &str) -> (r: bool)
    ensures
        r == (a@ == b@),
{
    let alen = a.unicode_len();
    let blen = b.unicode_len();
    if alen != blen {
        return false;
    }
    let mut i: usize = 0;
    while i < alen
        invariant
            alen == a@.len(),
            blen == b@.len(),
            alen == blen,
            i <= alen,
            forall|j: int| 0 <= j < i ==> a@[j] == b@[j],
        decreases alen - i,
    {
        if a.get_char(i) != b.get_char(i) {
            return false;
        }
        i = i + 1;
    }
    proof {
        assert(a@ =~= b@);
    }
    true
}

pub open spec fn is_dec_digit(c: char) -> bool {
    '0' as u32 <= c as u32 && c as u32 <= '9' as u32
}

pub open spec fn digit_val(c: char) -> int {
    c as u32 - '0' as u32
}

/// Value of a digit sequence read in base ten.
pub open spec fn dec_val(s: Seq<char>) -> int
    decreases s.len(),
{
    if s.len() == 0 {
        0
    } else {
        dec_val(s.drop_last()) * 10 + digit_val(s.last())
    }
}

/// The digits of a numeral token: everything after an optional leading `+`.
pub open spec fn numeral_digits(s: Seq<char>) -> Seq<char> {
    if s.len() > 0 && s[0] == '+' {
        s.subrange(1, s.len() as int)
    } else {
        s
    }
}

/// Whether a token is a decimal numeral (optionally `+`-signed) whose value
/// fits in a `u64`, the shape under which a token names a pull request.
pub open spec fn is_u64_numeral(s: Seq<char>) -> bool {
    &&& numeral_digits(s).len() > 0
    &&& forall|i: int| 0 <= i < numeral_digits(s).len() ==> is_dec_digit(
        #[trigger] numeral_digits(s)[i],
    )
    &&& dec_val(numeral_digits(s)) <= u64::MAX
}

proof fn lemma_dec_val_nonneg(s: Seq<char>)
    requires
        forall|i: int| 0 <= i < s.len() ==> is_dec_digit(#[trigger] s[i]),
    ensures
        dec_val(s) >= 0,
    decreases s.len(),
{
    if s.len() > 0 {
        lemma_dec_val_nonneg(s.drop_last());
    }
}

proof fn lemma_dec_val_extend_grows(s: Seq<char>, n: int)
    requires
        forall|i: int| 0 <= i < s.len() ==> is_dec_digit(#[trigger] s[i]),
        0 <= n <= s.len(),
    ensures
        dec_val(s) >= dec_val(s.subrange(0, n)),
    decreases s.len() - n,
{
    if n < s.len() {
        lemma_dec_val_extend_grows(s, n + 1);
        let shorter = s.subrange(0, n);
        let longer = s.subrange(0, n + 1);
        assert(longer.drop_last() =~= shorter);
        assert(longer.last() == s[n]);
        lemma_dec_val_nonneg(shorter);
    } else {
        assert(s.subrange(0, n) =~= s);
    }
}

/// Reads a token as a base-ten `u64` numeral, accepting an optional leading
/// `+`, rejecting any other non-digit and any value above `u64::MAX`: the
/// shapes `u64`'s string parser accepts.
pub fn parse_u64_numeral(s: &str) -> (r: Option<u64>)
    ensures
        r is Some <==> is_u64_numeral(s@),
        r matches Some(v) ==> v == dec_val(numeral_digits(s@)),
{
    let len = s.unicode_len();
    let start: usize = if len > 0 && s.get_char(0) == '+' {
        1
    } else {
        0
    };
    let ghost digits = numeral_digits(s@);
    proof {
        assert(digits =~= s@.subrange(start as int, len as int));
    }
    if start >= len {
        return None;
    }
    let mut acc: u64 = 0;
    let mut i: usize = start;
    while i < len
        invariant
            len == s@.len(),
            start <= i <= len,
            start < len,
            digits == numeral_digits(s@),
            digits =~= s@.subrange(start as int, len as int),
            forall|j: int| start <= j < i ==> is_dec_digit(#[trigger] s@[j]),
            acc == dec_val(s@.subrange(start as int, i as int)),
        decreases len - i,
    {
        let c = s.get_char(i);
        let cu = c as u32;
        if cu < '0' as u32 || cu > '9' as u32 {
            proof {
                assert(digits[i - start] == s@[i as int]);
                assert(!is_dec_digit(digits[i - start]));
            }
            return None;
        }
        let d: u64 = (cu - '0' as u32) as u64;
        let ghost prefix = s@.subrange(start as int, i as int);
        let ghost prefix1 = s@.subrange(start as int, i as int + 1);
        proof {
            assert(prefix1.drop_last() =~= prefix);
            assert(prefix1.last() == s@[i as int]);
        }
        if acc > (u64::MAX - d) / 10 {
            proof {
                assert(dec_val(prefix1) == acc * 10 + d);
                assert(acc * 10 + d > u64::MAX) by (nonlinear_arith)
                    requires
                        acc > (u64::MAX - d) / 10,
                        0 <= d <= 9,
                ;
                if is_u64_numeral(s@) {
                    assert forall|j: int| 0 <= j < digits.len() implies is_dec_digit(
                        #[trigger] digits[j],
                    ) by {
                        assert(is_dec_digit(numeral_digits(s@)[j]));
                    }
                    lemma_dec_val_extend_grows(digits, i + 1 - start);
                    assert(digits.subrange(0, i + 1 - start) =~= prefix1);
                    assert(dec_val(digits) >= dec_val(prefix1));
                    assert(false);
                }
            }
            return None;
        }
        proof {
            assert(acc * 10 + d <= u64::MAX) by (nonlinear_arith)
                requires
                    acc <= (u64::MAX - d) / 10,
                    0 <= d <= 9,
            ;
        }
        acc = acc * 10 + d;
        i = i + 1;
    }
    proof {
        assert(s@.subrange(start as int, len as int) =~= digits);
    }
    Some(acc)
}

/// Whether the token names a pull request by number.
pub fn is_pr_number(s: &str) -> (r: bool)
    ensures
        r == is_u64_numeral(s@),
{
    parse_u64_numeral(s).is_some()
}

pub open spec fn has_colon(s: Seq<char>) -> bool {
    exists|i: int| 0 <= i < s.len() && s[i] == ':'
}

/// Index of the first colon; length of the sequence when it has none.
pub open spec fn first_colon_of(s: Seq<char>) -> int
    decreases s.len(),
{
    if s.len() == 0 {
        0
    } else if s[0] == ':' {
        0
    } else {
        1 + first_colon_of(s.drop_first())
    }
}

pub proof fn lemma_first_colon(s: Seq<char>)
    ensures
        0 <= first_colon_of(s) <= s.len(),
        has_colon(s) <==> first_colon_of(s) < s.len(),
        first_colon_of(s) < s.len() ==> s[first_colon_of(s)] == ':',
        forall|j: int| 0 <= j < first_colon_of(s) ==> s[j] != ':',
    decreases s.len(),
{
    if s.len() == 0 {
    } else if s[0] == ':' {
    } else {
        let t = s.drop_first();
        lemma_first_colon(t);
        assert(forall|j: int| 0 <= j < t.len() ==> t[j] == s[j + 1]);
        if has_colon(s) {
            let i = choose|i: int| 0 <= i < s.len() && s[i] == ':';
            assert(t[i - 1] == ':');
            assert(has_colon(t));
        }
        if has_colon(t) {
            let i = choose|i: int| 0 <= i < t.len() && t[i] == ':';
            assert(s[i + 1] == ':');
            assert(has_colon(s));
        }
        assert forall|j: int| 0 <= j < first_colon_of(s) implies s[j] != ':' by {
            if j > 0 {
                assert(t[j - 1] != ':');
            }
        }
    }
}

/// Finds the first colon of the token, if any.
pub fn find_colon(s: &str) -> (r: Option<usize>)
    ensures
        r matches Some(i) ==> has_colon(s@) && i == first_colon_of(s@),
        r is None ==> !has_colon(s@),
{
    let len = s.unicode_len();
    let mut i: usize = 0;
    while i < len
        invariant
            len == s@.len(),
            i <= len,
            forall|j: int| 0 <= j < i ==> s@[j] != ':',
        decreases len - i,
    {
        if s.get_char(i) == ':' {
            proof {
                lemma_first_colon(s@);
                assert(has_colon(s@));
                if first_colon_of(s@) < i {
                    assert(s@[first_colon_of(s@)] == ':');
                    assert(false);
                }
                if first_colon_of(s@) > i {
                    assert(s@[i as int] != ':');
                    assert(false);
                }
            }
            return Some(i);
        }
        i = i + 1;
    }
    proof {
        lemma_first_colon(s@);
    }
    None
}

} // verus!
