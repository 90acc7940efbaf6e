use vstd::prelude::*;
use vstd::string::*;

verus! {

/// The character for one decimal digit value in 0..=9.
pub open spec fn digit_char(d: int) -> char {
    if d == 0 {
        '0'
    } else if d == 1 {
        '1'
    } else if d == 2 {
        '2'
    } else if d == 3 {
        '3'
    } else if d == 4 {
        '4'
    } else if d == 5 {
        '5'
    } else if d == 6 {
        '6'
    } else if d == 7 {
        '7'
    } else if d == 8 {
        '8'
    } else {
        '9'
    }
}

/// The decimal representation of `n`, most significant digit first, without
/// leading zeros (except for `n == 0`, which is "0").
pub open spec fn dec_rep(n: nat) -> Seq<char>
    decreases n,
{
    if n < 10 {
        seq![digit_char(n as int)]
    } else {
        dec_rep(n / 10).push(digit_char((n % 10) as int))
    }
}

/// The decimal representation of a possibly negative number: a leading '-'
/// for negative values, then the digits of the absolute value.
pub open spec fn dec_rep_signed(n: int) -> Seq<char> {
    if n < 0 {
        seq!['-'] + dec_rep((-n) as nat)
    } else {
        dec_rep(n as nat)
    }
}

/// Whether `c` is an ASCII decimal digit.
pub open spec fn is_digit(c: char) -> bool {
    '0' <= c && c <= '9'
}

/// The value of one decimal digit character.
pub open spec fn digit_val(c: char) -> int {
    c as int - '0' as int
}

/// Whether every character of `s` is a decimal digit.
pub open spec fn all_digits(s: Seq<char>) -> bool {
    forall|i: int| 0 <= i < s.len() ==> is_digit(#[trigger] s[i])
}

/// The numeric value of a digit string, read most significant digit first.
pub open spec fn dec_val(s: Seq<char>) -> nat
    decreases s.len(),
{
    if s.len() == 0 {
        0
    } else {
        (dec_val(s.drop_last()) * 10 + (if is_digit(s.last()) {
            digit_val(s.last())
        } else {
            0
        })) as nat
    }
}

/// `digit_char` always yields a digit character, and `digit_val` reads the
/// digit's value back.
pub proof fn lemma_digit_char_val(d: int)
    requires
        0 <= d <= 9,
    ensures
        is_digit(digit_char(d)),
        digit_val(digit_char(d)) == d,
{
}

/// Every character of a decimal representation is a digit, the representation
/// is never empty, and reading it back yields the original number.
pub proof fn lemma_dec_rep_val(n: nat)
    ensures
        dec_rep(n).len() >= 1,
        all_digits(dec_rep(n)),
        dec_val(dec_rep(n)) == n,
    decreases n,
{
    if n < 10 {
        let s = dec_rep(n);
        lemma_digit_char_val(n as int);
        assert(s.drop_last() =~= Seq::<char>::empty());
        assert(dec_val(Seq::<char>::empty()) == 0);
        assert(s.last() == digit_char(n as int));
        assert(dec_val(s) == dec_val(s.drop_last()) * 10 + digit_val(s.last()));
    } else {
        lemma_dec_rep_val(n / 10);
        lemma_digit_char_val((n % 10) as int);
        let s = dec_rep(n);
        assert(s.drop_last() =~= dec_rep(n / 10));
        assert(dec_val(s) == (n / 10) * 10 + n % 10);
    }
}

/// A digit string in canonical form: non-empty, and without a leading zero
/// unless it is exactly "0".
pub open spec fn canonical_dec(s: Seq<char>) -> bool {
    s.len() >= 1 && all_digits(s) && (s.len() > 1 ==> s[0] != '0')
}

/// Reading a digit character's value and printing it again gives the same
/// character back.
pub proof fn lemma_digit_char_inverse(c: char)
    requires
        is_digit(c),
    ensures
        digit_char(digit_val(c)) == c,
{
}

/// A decimal representation is always canonical.
pub proof fn lemma_dec_rep_canonical(n: nat)
    ensures
        canonical_dec(dec_rep(n)),
    decreases n,
{
    lemma_dec_rep_val(n);
    if n >= 10 {
        lemma_dec_rep_canonical(n / 10);
        lemma_digit_char_val((n % 10) as int);
        let s = dec_rep(n);
        assert(s[0] == dec_rep(n / 10)[0]);
        if n / 10 < 10 {
            lemma_digit_char_val((n / 10) as int);
            assert(dec_rep(n / 10)[0] == digit_char((n / 10) as int));
        } else {
            assert(dec_rep(n / 10) == dec_rep(n / 10 / 10).push(
                digit_char((n / 10 % 10) as int),
            ));
            lemma_dec_rep_val(n / 10 / 10);
            assert(dec_rep(n / 10).len() > 1);
        }
        assert(forall|i: int| 0 <= i < s.len() - 1 ==> s[i] == dec_rep(n / 10)[i]);
    }
}

/// A string of digits with no leading zero names a positive number.
pub proof fn lemma_dec_val_pos(s: Seq<char>)
    requires
        all_digits(s),
        s.len() >= 1,
        s[0] != '0',
    ensures
        dec_val(s) >= 1,
    decreases s.len(),
{
    if s.len() == 1 {
        assert(s.drop_last() =~= Seq::<char>::empty());
        assert(dec_val(Seq::<char>::empty()) == 0);
        assert(dec_val(s) == digit_val(s[0]));
    } else {
        let d = s.drop_last();
        assert(d[0] == s[0]);
        assert(forall|i: int| 0 <= i < d.len() ==> d[i] == s[i]);
        lemma_dec_val_pos(d);
    }
}

/// Printing the value of a canonical digit string gives the string back.
pub proof fn lemma_canonical_roundtrip(s: Seq<char>)
    requires
        canonical_dec(s),
    ensures
        dec_rep(dec_val(s)) == s,
    decreases s.len(),
{
    if s.len() == 1 {
        assert(s.drop_last() =~= Seq::<char>::empty());
        assert(dec_val(Seq::<char>::empty()) == 0);
        assert(dec_val(s) == digit_val(s[0]));
        lemma_digit_char_inverse(s[0]);
        assert(dec_rep(dec_val(s)) =~= s);
    } else {
        let d = s.drop_last();
        assert(d[0] == s[0]);
        assert(forall|i: int| 0 <= i < d.len() ==> d[i] == s[i]);
        assert(canonical_dec(d));
        lemma_canonical_roundtrip(d);
        lemma_dec_val_pos(d);
        let last = s.last();
        let v = dec_val(s);
        assert(v == dec_val(d) * 10 + digit_val(last));
        assert(v / 10 == dec_val(d) && v % 10 == digit_val(last)) by (nonlinear_arith)
            requires
                v == dec_val(d) * 10 + digit_val(last),
                0 <= digit_val(last) < 10,
        ;
        assert(v >= 10);
        lemma_digit_char_inverse(last);
        assert(dec_rep(v) == dec_rep(dec_val(d)).push(digit_char((v % 10) as int)));
        assert(dec_rep(v) =~= s);
    }
}

/// Formats `n` in decimal.
pub fn u64_to_string(n: u64) -> (r: String)
    ensures
        r@ == dec_rep(n as nat),
    decreases n,
{
    let digits = "0123456789";
    proof {
        reveal_strlit("0123456789");
        assert(digits.is_ascii());
    }
    let d = (n % 10) as usize;
    let ds = digits.substring_ascii(d, d + 1);
    proof {
        assert(ds@ =~= seq![digit_char(n as int % 10)]);
    }
    if n < 10 {
        let r = ds.to_owned();
        proof {
            assert(r@ =~= dec_rep(n as nat));
        }
        r
    } else {
        let mut prefix = u64_to_string(n / 10);
        prefix.append(ds);
        proof {
            assert(prefix@ =~= dec_rep(n as nat));
        }
        prefix
    }
}

/// Formats `n` in decimal, with a leading '-' when negative.
pub fn i32_to_string(n: i32) -> (r: String)
    ensures
        r@ == dec_rep_signed(n as int),
{
    if n >= 0 {
        u64_to_string(n as u64)
    } else {
        let wide: i64 = n as i64;
        let mag: u64 = (-wide) as u64;
        let mut r = String::from_str("-");
        proof {
            reveal_strlit("-");
        }
        let rest = u64_to_string(mag);
        r.append(rest.as_str());
        proof {
            assert(r@ =~= dec_rep_signed(n as int));
        }
        r
    }
}

/// Parses a non-empty all-digit string as a decimal number. Returns `None`
/// exactly when the string is empty, holds a non-digit, or the value does
/// not fit in a `u64`.
pub fn parse_u64(s: &str) -> (r: Option<u64>)
    ensures
        r is Some <==> (s@.len() > 0 && all_digits(s@) && dec_val(s@) <= u64::MAX),
        r is Some ==> r->0 == dec_val(s@),
{
    let n = s.unicode_len();
    if n == 0 {
        return None;
    }
    let mut acc: u64 = 0;
    let mut i: usize = 0;
    while i < n
        invariant
            0 < n == s@.len(),
            0 <= i <= n,
            all_digits(s@.subrange(0, i as int)),
            acc == dec_val(s@.subrange(0, i as int)),
        decreases n - i,
    {
        let c = s.get_char(i);
        proof {
            assert(s@.subrange(0, i + 1).drop_last() =~= s@.subrange(0, i as int));
            assert(s@.subrange(0, i + 1).last() == s@[i as int]);
        }
        if !('0' <= c && c <= '9') {
            proof {
                assert(!is_digit(s@[i as int]));
            }
            return None;
        }
        let d: u64 = (c as u32 as u64) - ('0' as u32 as u64);
        proof {
            assert(d == digit_val(s@[i as int]));
        }
        let limit: u64 = u64::MAX / 10;
        let rem: u64 = u64::MAX % 10;
        if acc > limit || (acc == limit && d > rem) {
            proof {
                assert(dec_val(s@.subrange(0, i + 1)) > u64::MAX) by (nonlinear_arith)
                    requires
                        dec_val(s@.subrange(0, i + 1)) == acc * 10 + d,
                        acc > u64::MAX / 10 || (acc == u64::MAX / 10 && d > u64::MAX % 10),
                        d <= 9,
                ;
                lemma_dec_val_prefix_grows(s@, i + 1);
            }
            return None;
        }
        proof {
            assert(acc * 10 + d <= u64::MAX) by (nonlinear_arith)
                requires
                    acc < u64::MAX / 10 || (acc == u64::MAX / 10 && d <= u64::MAX % 10),
                    d <= 9,
            ;
        }
        acc = acc * 10 + d;
        i = i + 1;
    }
    proof {
        assert(s@.subrange(0, n as int) =~= s@);
    }
    Some(acc)
}

/// A longer all-digit prefix of `s` never has a smaller value: extending a
/// prefix multiplies its value by ten before adding a digit.
pub(crate) proof fn lemma_dec_val_prefix_grows(s: Seq<char>, i: int)
    requires
        0 <= i <= s.len(),
    ensures
        dec_val(s) >= dec_val(s.subrange(0, i)),
    decreases s.len() - i,
{
    if i < s.len() {
        lemma_dec_val_prefix_grows(s, i + 1);
        let a = s.subrange(0, i);
        let b = s.subrange(0, i + 1);
        assert(b.drop_last() =~= a);
        assert(dec_val(b) == dec_val(a) * 10 + (if is_digit(b.last()) {
            digit_val(b.last())
        } else {
            0
        }));
        assert(dec_val(a) * 10 >= dec_val(a)) by (nonlinear_arith);
    } else {
        assert(s.subrange(0, i) =~= s);
    }
}

/// Compares two strings character by character.
pub fn str_eq(a: &str, b: &str) -> (r: bool)
    ensures
        r == (a@ == b@),
{
    let na = a.unicode_len();
    let nb = b.unicode_len();
    if na != nb {
        return false;
    }
    let mut i: usize = 0;
    while i < na
        invariant
            na == a@.len(),
            na == b@.len(),
            0 <= i <= na,
            forall|j: int| 0 <= j < i ==> a@[j] == b@[j],
        decreases na - i,
    {
        if a.get_char(i) != b.get_char(i) {
            return false;
        }
        i = i + 1;
    }
    proof {
        assert(a@ =~= b@);
    }
    true
}

/// Looks `key` up in an association list of string pairs and parses the first
/// matching value as a decimal number; yields `default` when the key is
/// absent or its value does not parse.
pub fn get_parse_string_value(hm: &Vec<(String, String)>, key: &str, default: u64) -> (r: u64)
    ensures
        (forall|i: int| 0 <= i < hm@.len() ==> hm@[i].0@ != key@) ==> r == default,
        forall|i: int|
            0 <= i < hm@.len() && hm@[i].0@ == key@ && (forall|j: int|
                0 <= j < i ==> hm@[j].0@ != key@) ==> r == spec_parse_or(hm@[i].1@, default),
{
    let mut i: usize = 0;
    while i < hm.len()
        invariant
            0 <= i <= hm@.len(),
            forall|j: int| 0 <= j < i ==> hm@[j].0@ != key@,
        decreases hm@.len() - i,
    {
        if str_eq(hm[i].0.as_str(), key) {
            let parsed = parse_u64(hm[i].1.as_str());
            return match parsed {
                Some(v) => v,
                None => default,
            };
        }
        i = i + 1;
    }
    default
}

/// The value a decimal string parses to, or `default` when it does not parse.
pub open spec fn spec_parse_or(s: Seq<char>, default: u64) -> u64 {
    if s.len() > 0 && all_digits(s) && dec_val(s) <= u64::MAX {
        dec_val(s) as u64
    } else {
        default
    }
}

} // verus!
