//! Decimal digit strings: validation and numeric value.
//!
//! Public inputs reach the verifier as decimal text; the structured proof
//! encoding emits coordinates as decimal text. This module gives both sides
//! their meaning — a digit string denotes a natural number — and decides,
//! by string comparison alone, whether a value lies below the scalar-field
//! order.

use vstd::prelude::*;

verus! {

/// True when `c` is an ASCII decimal digit.
pub open spec fn is_digit(c: char) -> bool {
    '0' <= c && c <= '9'
}

/// True when `s` is a nonempty string made of ASCII decimal digits.
pub open spec fn is_digits(s: Seq<char>) -> bool
    decreases s.len(),
{
    s.len() > 0 && is_digit(s.last()) && (s.len() == 1 || is_digits(s.drop_last()))
}

/// True when `s` does not start with a superfluous zero: the canonical
/// decimal form of a number is either `"0"` itself or starts with a
/// nonzero digit.
pub open spec fn no_leading_zero(s: Seq<char>) -> bool {
    s.len() > 0 && (s.len() == 1 || s[0] != '0')
}

/// Numeric value of a single digit character.
pub open spec fn digit_value(c: char) -> nat {
    (c as int - '0' as int) as nat
}

/// Natural number denoted by a digit string, most significant digit first.
pub open spec fn dec_value(s: Seq<char>) -> nat
    decreases s.len(),
{
    if s.len() == 0 {
        0
    } else {
        dec_value(s.drop_last()) * 10 + digit_value(s.last())
    }
}

/// Natural number denoted by a little-endian byte string.
pub open spec fn le_value(b: Seq<u8>) -> nat
    decreases b.len(),
{
    if b.len() == 0 {
        0
    } else {
        (b[0] + 256 * le_value(b.subrange(1, b.len() as int))) as nat
    }
}

/// 10 to the power `n`.
pub open spec fn pow10(n: nat) -> nat
    decreases n,
{
    if n == 0 {
        1
    } else {
        10 * pow10((n - 1) as nat)
    }
}

/// Order of the BN254 scalar field, as decimal text. Field elements are
/// the natural numbers strictly below its value.
pub open spec fn field_order_text() -> Seq<char> {
    "21888242871839275222246405745257275088548364400416034343698204186575808495617"@
}

/// Order of the BN254 scalar field.
pub open spec fn field_order() -> nat {
    dec_value(field_order_text())
}

/// True when `s` is the canonical decimal form of an element of the scalar
/// field: digits only, no superfluous leading zero, value below the field
/// order.
pub open spec fn valid_field_text(s: Seq<char>) -> bool {
    is_digits(s) && no_leading_zero(s) && dec_value(s) < field_order()
}

/// Every position of a digit string holds a digit.
pub proof fn lemma_digits_index(s: Seq<char>, j: int)
    requires
        is_digits(s),
        0 <= j < s.len(),
    ensures
        is_digit(s[j]),
    decreases s.len(),
{
    if j < s.len() - 1 {
        lemma_digits_index(s.drop_last(), j);
    }
}

/// A nonempty string of digits at every position is a digit string.
pub proof fn lemma_digits_of_all(s: Seq<char>)
    requires
        s.len() > 0,
        forall|j: int| 0 <= j < s.len() ==> is_digit(s[j]),
    ensures
        is_digits(s),
    decreases s.len(),
{
    if s.len() > 1 {
        lemma_digits_of_all(s.drop_last());
    }
}

/// Ten to a power is positive.
pub proof fn lemma_pow10_pos(n: nat)
    ensures
        pow10(n) >= 1,
    decreases n,
{
    if n > 0 {
        lemma_pow10_pos((n - 1) as nat);
    }
}

/// Ten to a power grows with the exponent.
pub proof fn lemma_pow10_monotone(a: nat, b: nat)
    requires
        a <= b,
    ensures
        pow10(a) <= pow10(b),
    decreases b,
{
    if a < b {
        lemma_pow10_monotone(a, (b - 1) as nat);
        lemma_pow10_pos((b - 1) as nat);
    }
}

/// A digit string of length `n` denotes a value below ten to the `n`.
pub proof fn lemma_dec_value_upper(s: Seq<char>)
    requires
        is_digits(s),
    ensures
        dec_value(s) < pow10(s.len()),
    decreases s.len(),
{
    assert(digit_value(s.last()) <= 9);
    assert(pow10(s.len()) == 10 * pow10((s.len() - 1) as nat));
    if s.len() == 1 {
        assert(dec_value(s.drop_last()) == 0);
        assert(pow10(0) == 1);
    } else {
        lemma_dec_value_upper(s.drop_last());
        assert(dec_value(s.drop_last()) * 10 <= (pow10((s.len() - 1) as nat) - 1) * 10);
    }
}

/// A digit string without a leading zero denotes at least ten to the
/// length less one.
pub proof fn lemma_dec_value_lower(s: Seq<char>)
    requires
        is_digits(s),
        s[0] != '0',
    ensures
        dec_value(s) >= pow10((s.len() - 1) as nat),
    decreases s.len(),
{
    if s.len() == 1 {
    } else {
        assert(s.drop_last()[0] == s[0]);
        lemma_dec_value_lower(s.drop_last());
    }
}

/// Concatenation shifts the left part by the length of the right part.
pub proof fn lemma_dec_value_append(s: Seq<char>, t: Seq<char>)
    ensures
        dec_value(s + t) == dec_value(s) * pow10(t.len()) + dec_value(t),
    decreases t.len(),
{
    if t.len() == 0 {
        assert(s + t =~= s);
        assert(pow10(0) == 1);
        assert(dec_value(s) * 1 == dec_value(s));
    } else {
        let t0 = t.drop_last();
        lemma_dec_value_append(s, t0);
        assert((s + t).drop_last() =~= s + t0);
        assert((s + t).last() == t.last());
        assert(dec_value(s + t) == (dec_value(s) * pow10(t0.len()) + dec_value(t0)) * 10
            + digit_value(t.last()));
        assert((dec_value(s) * pow10(t0.len()) + dec_value(t0)) * 10 == dec_value(s) * (10 * pow10(
            t0.len(),
        )) + dec_value(t0) * 10) by (nonlinear_arith);
        assert(pow10(t.len()) == 10 * pow10(t0.len()));
        assert(dec_value(t) == dec_value(t0) * 10 + digit_value(t.last()));
        assert(dec_value(s) * (10 * pow10(t0.len())) == dec_value(s) * pow10(t.len()));
        assert(dec_value(s + t) == dec_value(s) * pow10(t.len()) + dec_value(t0) * 10
            + digit_value(t.last()));
    }
}

/// A shorter canonical digit string denotes a smaller value.
pub proof fn lemma_dec_value_shorter(s: Seq<char>, t: Seq<char>)
    requires
        is_digits(s),
        is_digits(t),
        no_leading_zero(t),
        s.len() < t.len(),
    ensures
        dec_value(s) < dec_value(t),
{
    lemma_dec_value_upper(s);
    if t.len() == 1 {
    } else {
        lemma_dec_value_lower(t);
        lemma_pow10_monotone(s.len(), (t.len() - 1) as nat);
    }
}

/// Of two equally long digit strings that agree before position `i` and
/// differ there, the one with the smaller digit denotes the smaller value.
pub proof fn lemma_dec_value_lex(s: Seq<char>, t: Seq<char>, i: int)
    requires
        is_digits(s),
        is_digits(t),
        s.len() == t.len(),
        0 <= i < s.len(),
        forall|j: int| 0 <= j < i ==> s[j] == t[j],
        (s[i] as int) < (t[i] as int),
    ensures
        dec_value(s) < dec_value(t),
{
    let n = s.len() as int;
    let sh = s.subrange(0, i + 1);
    let st = s.subrange(i + 1, n);
    let th = t.subrange(0, i + 1);
    let tt = t.subrange(i + 1, n);
    assert(s =~= sh + st);
    assert(t =~= th + tt);
    lemma_dec_value_append(sh, st);
    lemma_dec_value_append(th, tt);
    let p = s.subrange(0, i);
    assert(t.subrange(0, i) =~= p);
    assert(sh.drop_last() =~= p);
    assert(th.drop_last() =~= p);
    assert(sh.last() == s[i]);
    assert(th.last() == t[i]);
    let base = dec_value(p) * 10;
    assert(dec_value(sh) == base + digit_value(s[i]));
    assert(dec_value(th) == base + digit_value(t[i]));
    assert(forall|j: int| 0 <= j < st.len() ==> is_digit(#[trigger] st[j])) by {
        assert forall|j: int| 0 <= j < st.len() implies is_digit(#[trigger] st[j]) by {
            lemma_digits_index(s, i + 1 + j);
        }
    }
    if st.len() > 0 {
        lemma_digits_of_all(st);
        lemma_dec_value_upper(st);
    }
    lemma_pow10_pos(st.len());
    lemma_digits_index(s, i);
    lemma_digits_index(t, i);
    assert(digit_value(s[i]) + 1 <= digit_value(t[i]));
    assert(st.len() == tt.len());
    assert((base + digit_value(s[i])) * pow10(st.len()) + dec_value(st) < (base + digit_value(
        t[i],
    )) * pow10(tt.len()) + dec_value(tt)) by (nonlinear_arith)
        requires
            digit_value(s[i]) + 1 <= digit_value(t[i]),
            dec_value(st) < pow10(st.len()),
            pow10(st.len()) >= 1,
            st.len() == tt.len(),
            base >= 0,
            dec_value(tt) >= 0,
    ;
}

/// Equal digit strings denote equal values, stated for the comparison
/// loop's final case.
pub proof fn lemma_dec_value_equal(s: Seq<char>, t: Seq<char>)
    requires
        s.len() == t.len(),
        forall|j: int| 0 <= j < s.len() ==> s[j] == t[j],
    ensures
        dec_value(s) == dec_value(t),
{
    assert(s =~= t);
}

/// The scalar-field order as source text, for the runtime comparison.
pub fn field_order_decimal() -> (r: &'static str)
    ensures
        r@ == field_order_text(),
{
    "21888242871839275222246405745257275088548364400416034343698204186575808495617"
}

/// The order text is itself canonical decimal text.
#[verifier::rlimit(100)]
pub proof fn lemma_field_order_text_wf()
    ensures
        is_digits(field_order_text()),
        no_leading_zero(field_order_text()),
        field_order_text().len() == 77,
{
    reveal_strlit(
        "21888242871839275222246405745257275088548364400416034343698204186575808495617",
    );
    assert(field_order_text().len() == 77);
    // The digit property is established prefix by prefix, one unfolding of
    // `is_digits` per character of the literal.
    let t = field_order_text();
    assert(is_digits(t.subrange(0, 1)));
    assert(t.subrange(0, 2).drop_last() =~= t.subrange(0, 1));
    assert(is_digits(t.subrange(0, 2)));
    assert(t.subrange(0, 3).drop_last() =~= t.subrange(0, 2));
    assert(is_digits(t.subrange(0, 3)));
    assert(t.subrange(0, 4).drop_last() =~= t.subrange(0, 3));
    assert(is_digits(t.subrange(0, 4)));
    assert(t.subrange(0, 5).drop_last() =~= t.subrange(0, 4));
    assert(is_digits(t.subrange(0, 5)));
    assert(t.subrange(0, 6).drop_last() =~= t.subrange(0, 5));
    assert(is_digits(t.subrange(0, 6)));
    assert(t.subrange(0, 7).drop_last() =~= t.subrange(0, 6));
    assert(is_digits(t.subrange(0, 7)));
    assert(t.subrange(0, 8).drop_last() =~= t.subrange(0, 7));
    assert(is_digits(t.subrange(0, 8)));
    assert(t.subrange(0, 9).drop_last() =~= t.subrange(0, 8));
    assert(is_digits(t.subrange(0, 9)));
    assert(t.subrange(0, 10).drop_last() =~= t.subrange(0, 9));
    assert(is_digits(t.subrange(0, 10)));
    assert(t.subrange(0, 11).drop_last() =~= t.subrange(0, 10));
    assert(is_digits(t.subrange(0, 11)));
    assert(t.subrange(0, 12).drop_last() =~= t.subrange(0, 11));
    assert(is_digits(t.subrange(0, 12)));
    assert(t.subrange(0, 13).drop_last() =~= t.subrange(0, 12));
    assert(is_digits(t.subrange(0, 13)));
    assert(t.subrange(0, 14).drop_last() =~= t.subrange(0, 13));
    assert(is_digits(t.subrange(0, 14)));
    assert(t.subrange(0, 15).drop_last() =~= t.subrange(0, 14));
    assert(is_digits(t.subrange(0, 15)));
    assert(t.subrange(0, 16).drop_last() =~= t.subrange(0, 15));
    assert(is_digits(t.subrange(0, 16)));
    assert(t.subrange(0, 17).drop_last() =~= t.subrange(0, 16));
    assert(is_digits(t.subrange(0, 17)));
    assert(t.subrange(0, 18).drop_last() =~= t.subrange(0, 17));
    assert(is_digits(t.subrange(0, 18)));
    assert(t.subrange(0, 19).drop_last() =~= t.subrange(0, 18));
    assert(is_digits(t.subrange(0, 19)));
    assert(t.subrange(0, 20).drop_last() =~= t.subrange(0, 19));
    assert(is_digits(t.subrange(0, 20)));
    assert(t.subrange(0, 21).drop_last() =~= t.subrange(0, 20));
    assert(is_digits(t.subrange(0, 21)));
    assert(t.subrange(0, 22).drop_last() =~= t.subrange(0, 21));
    assert(is_digits(t.subrange(0, 22)));
    assert(t.subrange(0, 23).drop_last() =~= t.subrange(0, 22));
    assert(is_digits(t.subrange(0, 23)));
    assert(t.subrange(0, 24).drop_last() =~= t.subrange(0, 23));
    assert(is_digits(t.subrange(0, 24)));
    assert(t.subrange(0, 25).drop_last() =~= t.subrange(0, 24));
    assert(is_digits(t.subrange(0, 25)));
    assert(t.subrange(0, 26).drop_last() =~= t.subrange(0, 25));
    assert(is_digits(t.subrange(0, 26)));
    assert(t.subrange(0, 27).drop_last() =~= t.subrange(0, 26));
    assert(is_digits(t.subrange(0, 27)));
    assert(t.subrange(0, 28).drop_last() =~= t.subrange(0, 27));
    assert(is_digits(t.subrange(0, 28)));
    assert(t.subrange(0, 29).drop_last() =~= t.subrange(0, 28));
    assert(is_digits(t.subrange(0, 29)));
    assert(t.subrange(0, 30).drop_last() =~= t.subrange(0, 29));
    assert(is_digits(t.subrange(0, 30)));
    assert(t.subrange(0, 31).drop_last() =~= t.subrange(0, 30));
    assert(is_digits(t.subrange(0, 31)));
    assert(t.subrange(0, 32).drop_last() =~= t.subrange(0, 31));
    assert(is_digits(t.subrange(0, 32)));
    assert(t.subrange(0, 33).drop_last() =~= t.subrange(0, 32));
    assert(is_digits(t.subrange(0, 33)));
    assert(t.subrange(0, 34).drop_last() =~= t.subrange(0, 33));
    assert(is_digits(t.subrange(0, 34)));
    assert(t.subrange(0, 35).drop_last() =~= t.subrange(0, 34));
    assert(is_digits(t.subrange(0, 35)));
    assert(t.subrange(0, 36).drop_last() =~= t.subrange(0, 35));
    assert(is_digits(t.subrange(0, 36)));
    assert(t.subrange(0, 37).drop_last() =~= t.subrange(0, 36));
    assert(is_digits(t.subrange(0, 37)));
    assert(t.subrange(0, 38).drop_last() =~= t.subrange(0, 37));
    assert(is_digits(t.subrange(0, 38)));
    assert(t.subrange(0, 39).drop_last() =~= t.subrange(0, 38));
    assert(is_digits(t.subrange(0, 39)));
    assert(t.subrange(0, 40).drop_last() =~= t.subrange(0, 39));
    assert(is_digits(t.subrange(0, 40)));
    assert(t.subrange(0, 41).drop_last() =~= t.subrange(0, 40));
    assert(is_digits(t.subrange(0, 41)));
    assert(t.subrange(0, 42).drop_last() =~= t.subrange(0, 41));
    assert(is_digits(t.subrange(0, 42)));
    assert(t.subrange(0, 43).drop_last() =~= t.subrange(0, 42));
    assert(is_digits(t.subrange(0, 43)));
    assert(t.subrange(0, 44).drop_last() =~= t.subrange(0, 43));
    assert(is_digits(t.subrange(0, 44)));
    assert(t.subrange(0, 45).drop_last() =~= t.subrange(0, 44));
    assert(is_digits(t.subrange(0, 45)));
    assert(t.subrange(0, 46).drop_last() =~= t.subrange(0, 45));
    assert(is_digits(t.subrange(0, 46)));
    assert(t.subrange(0, 47).drop_last() =~= t.subrange(0, 46));
    assert(is_digits(t.subrange(0, 47)));
    assert(t.subrange(0, 48).drop_last() =~= t.subrange(0, 47));
    assert(is_digits(t.subrange(0, 48)));
    assert(t.subrange(0, 49).drop_last() =~= t.subrange(0, 48));
    assert(is_digits(t.subrange(0, 49)));
    assert(t.subrange(0, 50).drop_last() =~= t.subrange(0, 49));
    assert(is_digits(t.subrange(0, 50)));
    assert(t.subrange(0, 51).drop_last() =~= t.subrange(0, 50));
    assert(is_digits(t.subrange(0, 51)));
    assert(t.subrange(0, 52).drop_last() =~= t.subrange(0, 51));
    assert(is_digits(t.subrange(0, 52)));
    assert(t.subrange(0, 53).drop_last() =~= t.subrange(0, 52));
    assert(is_digits(t.subrange(0, 53)));
    assert(t.subrange(0, 54).drop_last() =~= t.subrange(0, 53));
    assert(is_digits(t.subrange(0, 54)));
    assert(t.subrange(0, 55).drop_last() =~= t.subrange(0, 54));
    assert(is_digits(t.subrange(0, 55)));
    assert(t.subrange(0, 56).drop_last() =~= t.subrange(0, 55));
    assert(is_digits(t.subrange(0, 56)));
    assert(t.subrange(0, 57).drop_last() =~= t.subrange(0, 56));
    assert(is_digits(t.subrange(0, 57)));
    assert(t.subrange(0, 58).drop_last() =~= t.subrange(0, 57));
    assert(is_digits(t.subrange(0, 58)));
    assert(t.subrange(0, 59).drop_last() =~= t.subrange(0, 58));
    assert(is_digits(t.subrange(0, 59)));
    assert(t.subrange(0, 60).drop_last() =~= t.subrange(0, 59));
    assert(is_digits(t.subrange(0, 60)));
    assert(t.subrange(0, 61).drop_last() =~= t.subrange(0, 60));
    assert(is_digits(t.subrange(0, 61)));
    assert(t.subrange(0, 62).drop_last() =~= t.subrange(0, 61));
    assert(is_digits(t.subrange(0, 62)));
    assert(t.subrange(0, 63).drop_last() =~= t.subrange(0, 62));
    assert(is_digits(t.subrange(0, 63)));
    assert(t.subrange(0, 64).drop_last() =~= t.subrange(0, 63));
    assert(is_digits(t.subrange(0, 64)));
    assert(t.subrange(0, 65).drop_last() =~= t.subrange(0, 64));
    assert(is_digits(t.subrange(0, 65)));
    assert(t.subrange(0, 66).drop_last() =~= t.subrange(0, 65));
    assert(is_digits(t.subrange(0, 66)));
    assert(t.subrange(0, 67).drop_last() =~= t.subrange(0, 66));
    assert(is_digits(t.subrange(0, 67)));
    assert(t.subrange(0, 68).drop_last() =~= t.subrange(0, 67));
    assert(is_digits(t.subrange(0, 68)));
    assert(t.subrange(0, 69).drop_last() =~= t.subrange(0, 68));
    assert(is_digits(t.subrange(0, 69)));
    assert(t.subrange(0, 70).drop_last() =~= t.subrange(0, 69));
    assert(is_digits(t.subrange(0, 70)));
    assert(t.subrange(0, 71).drop_last() =~= t.subrange(0, 70));
    assert(is_digits(t.subrange(0, 71)));
    assert(t.subrange(0, 72).drop_last() =~= t.subrange(0, 71));
    assert(is_digits(t.subrange(0, 72)));
    assert(t.subrange(0, 73).drop_last() =~= t.subrange(0, 72));
    assert(is_digits(t.subrange(0, 73)));
    assert(t.subrange(0, 74).drop_last() =~= t.subrange(0, 73));
    assert(is_digits(t.subrange(0, 74)));
    assert(t.subrange(0, 75).drop_last() =~= t.subrange(0, 74));
    assert(is_digits(t.subrange(0, 75)));
    assert(t.subrange(0, 76).drop_last() =~= t.subrange(0, 75));
    assert(is_digits(t.subrange(0, 76)));
    assert(t.subrange(0, 77).drop_last() =~= t.subrange(0, 76));
    assert(is_digits(t.subrange(0, 77)));
    assert(t.subrange(0, 77) =~= t);
}

/// Runtime check that `s` is a nonempty string of decimal digits.
pub fn scan_digits(s: &str) -> (r: bool)
    ensures
        r == is_digits(s@),
{
    let n = s.unicode_len();
    if n == 0 {
        return false;
    }
    let mut i: usize = 0;
    while i < n
        invariant
            0 < n,
            n == s@.len(),
            0 <= i <= n,
            i > 0 ==> is_digits(s@.subrange(0, i as int)),
        decreases n - i,
    {
        let c = s.get_char(i);
        if c < '0' || '9' < c {
            proof {
                if is_digits(s@) {
                    lemma_digits_index(s@, i as int);
                }
            }
            return false;
        }
        proof {
            let pre = s@.subrange(0, i as int);
            let cur = s@.subrange(0, i as int + 1);
            assert(cur.drop_last() =~= pre);
            assert(cur.last() == s@[i as int]);
        }
        i += 1;
    }
    proof {
        assert(s@.subrange(0, n as int) =~= s@);
    }
    true
}

/// Decides `dec_value(s@) < dec_value(t@)` for canonical digit strings:
/// by length first, then lexicographically.
pub fn dec_lt(s: &str, t: &str) -> (r: bool)
    requires
        is_digits(s@),
        is_digits(t@),
        no_leading_zero(s@),
        no_leading_zero(t@),
    ensures
        r == (dec_value(s@) < dec_value(t@)),
{
    let n = s.unicode_len();
    let m = t.unicode_len();
    if n < m {
        proof {
            lemma_dec_value_shorter(s@, t@);
        }
        return true;
    }
    if m < n {
        proof {
            lemma_dec_value_shorter(t@, s@);
        }
        return false;
    }
    let mut i: usize = 0;
    while i < n
        invariant
            n == s@.len(),
            n == t@.len(),
            0 <= i <= n,
            forall|j: int| 0 <= j < i ==> s@[j] == t@[j],
            is_digits(s@),
            is_digits(t@),
        decreases n - i,
    {
        let cs = s.get_char(i);
        let ct = t.get_char(i);
        if cs == ct {
            i += 1;
        } else if (cs as u32) < (ct as u32) {
            proof {
                lemma_dec_value_lex(s@, t@, i as int);
            }
            return true;
        } else {
            proof {
                lemma_dec_value_lex(t@, s@, i as int);
            }
            return false;
        }
    }
    proof {
        lemma_dec_value_equal(s@, t@);
    }
    false
}

/// Runtime check of `valid_field_text`: digits only, no superfluous
/// leading zero, value strictly below the scalar-field order.
pub fn check_field_text(s: &str) -> (r: bool)
    ensures
        r == valid_field_text(s@),
{
    if !scan_digits(s) {
        return false;
    }
    let n = s.unicode_len();
    if n > 1 && s.get_char(0) == '0' {
        return false;
    }
    proof {
        lemma_field_order_text_wf();
    }
    dec_lt(s, field_order_decimal())
}

} // verus!
