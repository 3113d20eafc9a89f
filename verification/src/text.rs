//! Text helpers: character-wise equality and decimal `i32` reading.
use vstd::prelude::*;

verus! {

/// A decimal digit `0`..`9`.
pub open spec fn is_digit(c: char) -> bool {
    '0' <= c && c <= '9'
}

/// Numeric value of a decimal digit.
pub open spec fn digit_value(c: char) -> int {
    (c as int) - ('0' as int)
}

/// Every character of `s` is a decimal digit.
pub open spec fn all_digits(s: Seq<char>) -> bool {
    forall|i: int| 0 <= i < s.len() ==> is_digit(#[trigger] s[i])
}

/// Value of a string of decimal digits, most significant first.
pub open spec fn digits_value(s: Seq<char>) -> int
    decreases s.len(),
{
    if s.len() == 0 {
        0
    } else {
        digits_value(s.drop_last()) * 10 + digit_value(s.last())
    }
}

/// The character for a decimal digit `d` (0 to 9).
pub open spec fn digit_char(d: int) -> char {
    (d + ('0' as int)) as char
}

/// The decimal digits of `n`, most significant first, without leading zeros.
pub open spec fn natural_text(n: nat) -> Seq<char>
    decreases n,
{
    if n < 10 {
        seq![digit_char(n as int)]
    } else {
        natural_text(n / 10).push(digit_char((n % 10) as int))
    }
}

/// `n` written in decimal, with a leading `-` when negative.
pub open spec fn integer_text(n: int) -> Seq<char> {
    if n < 0 {
        seq!['-'] + natural_text((-n) as nat)
    } else {
        natural_text(n as nat)
    }
}

/// What reading `s` as an `i32` gives: an optional `+` or `-` sign, then one
/// or more decimal digits and nothing else, with a value inside `i32`'s range.
pub open spec fn decimal_i32(s: Seq<char>) -> Option<i32> {
    let signed = s.len() > 0 && (s[0] == '-' || s[0] == '+');
    let negative = s.len() > 0 && s[0] == '-';
    let body = if signed { s.drop_first() } else { s };
    let v = if negative { -digits_value(body) } else { digits_value(body) };
    if body.len() == 0 || !all_digits(body) {
        None
    } else if i32::MIN <= v && v <= i32::MAX {
        Some(v as i32)
    } else {
        None
    }
}

proof fn lemma_digits_value_nonneg(s: Seq<char>)
    requires
        all_digits(s),
    ensures
        digits_value(s) >= 0,
    decreases s.len(),
{
    if s.len() > 0 {
        assert(all_digits(s.drop_last())) by {
            assert forall|i: int| 0 <= i < s.drop_last().len() implies is_digit(
                #[trigger] s.drop_last()[i],
            ) by {
                assert(s.drop_last()[i] == s[i]);
            }
        }
        assert(is_digit(s[s.len() - 1]));
        lemma_digits_value_nonneg(s.drop_last());
    }
}

/// A digit string is worth at least as much as any of its prefixes.
proof fn lemma_digits_value_prefix(s: Seq<char>, k: int)
    requires
        all_digits(s),
        0 <= k <= s.len(),
    ensures
        digits_value(s.subrange(0, k)) <= digits_value(s),
    decreases s.len(),
{
    if k < s.len() {
        let p = s.drop_last();
        assert(all_digits(p)) by {
            assert forall|i: int| 0 <= i < p.len() implies is_digit(#[trigger] p[i]) by {
                assert(p[i] == s[i]);
            }
        }
        assert(p.subrange(0, k) =~= s.subrange(0, k));
        lemma_digits_value_prefix(p, k);
        lemma_digits_value_nonneg(p);
        assert(is_digit(s[s.len() - 1]));
    } else {
        assert(s.subrange(0, k) =~= s);
    }
}

/// Compares two strings character by character.
pub fn same_text(a: &str, b: &str) -> (r: bool)
    ensures
        r == (a@ == b@),
{
    let n = a.unicode_len();
    if n != b.unicode_len() {
        return false;
    }
    let mut i: usize = 0;
    while i < n
        invariant
            n == a@.len(),
            n == b@.len(),
            i <= n,
            forall|j: int| 0 <= j < i ==> a@[j] == b@[j],
        decreases n - i,
    {
        if a.get_char(i) != b.get_char(i) {
            return false;
        }
        i = i + 1;
    }
    assert(a@ =~= b@);
    true
}

/// Reads `s` as a decimal `i32` the way `str::parse::<i32>` does: an optional
/// sign, then digits only; `None` for anything else or a value out of range.
pub fn parse_i32(s: &str) -> (r: Option<i32>)
    ensures
        r == decimal_i32(s@),
        forall|v: i32| s@ == #[trigger] integer_text(v as int) ==> r == Some(v),
        s@.len() == 0 ==> r is None,
        forall|i: int| 0 <= i < s@.len() && #[trigger] s@[i] == ' ' ==> r is None,
{
    proof {
        assert forall|v: i32| s@ == #[trigger] integer_text(v as int) implies decimal_i32(s@)
            == Some(v) by {
            lemma_decimal_roundtrip(v);
        }
        assert forall|i: int| 0 <= i < s@.len() && #[trigger] s@[i] == ' ' implies decimal_i32(
            s@,
        ) is None by {
            lemma_space_rejected(s@, i);
        }
    }
    read_decimal_i32(s)
}

fn read_decimal_i32(s: &str) -> (r: Option<i32>)
    ensures
        r == decimal_i32(s@),
{
    let n = s.unicode_len();
    let mut start: usize = 0;
    let mut negative = false;
    if n > 0 {
        let c = s.get_char(0);
        if c == '-' {
            negative = true;
            start = 1;
        } else if c == '+' {
            start = 1;
        }
    }
    let ghost body = s@.subrange(start as int, n as int);
    assert(body =~= (if start == 1 { s@.drop_first() } else { s@ }));
    if start == n {
        return None;
    }
    let mut i: usize = start;
    let mut acc: i64 = 0;
    while i < n
        invariant
            n == s@.len(),
            start <= i <= n,
            start < n,
            body == s@.subrange(start as int, n as int),
            body == (if s@.len() > 0 && (s@[0] == '-' || s@[0] == '+') {
                s@.drop_first()
            } else {
                s@
            }),
            negative == (s@.len() > 0 && s@[0] == '-'),
            all_digits(body.subrange(0, i - start)),
            acc == digits_value(body.subrange(0, i - start)),
            0 <= acc <= 2147483648,
        decreases n - i,
    {
        let c = s.get_char(i);
        let ghost k: int = i - start;
        assert(body[k] == c);
        if !('0' <= c && c <= '9') {
            assert(!all_digits(body)) by {
                assert(!is_digit(body[k]));
            }
            return None;
        }
        let d = (c as u32 - '0' as u32) as i64;
        let ghost prev = body.subrange(0, k);
        let ghost next = body.subrange(0, k + 1);
        assert(next.drop_last() =~= prev);
        assert(next.last() == c);
        assert(all_digits(next)) by {
            assert forall|j: int| 0 <= j < next.len() implies is_digit(#[trigger] next[j]) by {
                if j < k {
                    assert(next[j] == prev[j]);
                }
            }
        }
        acc = acc * 10 + d;
        i = i + 1;
        if acc > 2147483648 {
            proof {
                if all_digits(body) {
                    lemma_digits_value_prefix(body, k + 1);
                }
            }
            return None;
        }
    }
    assert(body.subrange(0, i - start) =~= body);
    let v: i64 = if negative { -acc } else { acc };
    if v < -2147483648 || v > 2147483647 {
        None
    } else {
        Some(v as i32)
    }
}

proof fn lemma_natural_text(n: nat)
    ensures
        all_digits(natural_text(n)),
        digits_value(natural_text(n)) == n,
        natural_text(n).len() > 0,
        !(natural_text(n)[0] == '-' || natural_text(n)[0] == '+'),
    decreases n,
{
    if n >= 10 {
        lemma_natural_text(n / 10);
        let s = natural_text(n / 10);
        let t = s.push(digit_char((n % 10) as int));
        assert(t.drop_last() =~= s);
        assert(all_digits(t)) by {
            assert forall|i: int| 0 <= i < t.len() implies is_digit(#[trigger] t[i]) by {
                if i < s.len() {
                    assert(t[i] == s[i]);
                }
            }
        }
        assert(t[0] == s[0]);
        let d = (n % 10) as int;
        assert(digit_value(digit_char(d)) == d);
        assert((n / 10) * 10 + n % 10 == n);
        assert(digits_value(t) == digits_value(s) * 10 + digit_value(t.last()));
        assert(natural_text(n) == t);
        assert(digits_value(t) == n);
    } else {
        let t = natural_text(n);
        assert(t.drop_last() =~= Seq::<char>::empty());
        assert(digit_value(digit_char(n as int)) == n);
        assert(digits_value(Seq::<char>::empty()) == 0);
        assert(t.last() == digit_char(n as int));
        assert(digits_value(t) == digits_value(t.drop_last()) * 10 + digit_value(t.last()));
    }
}

/// Reading the decimal text of any `i32` gives that number back.
pub proof fn lemma_decimal_roundtrip(v: i32)
    ensures
        decimal_i32(integer_text(v as int)) == Some(v),
{
    if v < 0 {
        let digits = natural_text((-(v as int)) as nat);
        lemma_natural_text((-(v as int)) as nat);
        assert((seq!['-'] + digits).drop_first() =~= digits);
    } else {
        lemma_natural_text(v as nat);
    }
}

/// A text with a space anywhere is not read as a number.
pub proof fn lemma_space_rejected(s: Seq<char>, i: int)
    requires
        0 <= i < s.len(),
        s[i] == ' ',
    ensures
        decimal_i32(s) is None,
{
    let signed = s.len() > 0 && (s[0] == '-' || s[0] == '+');
    let body = if signed {
        s.drop_first()
    } else {
        s
    };
    if i > 0 && signed {
        assert(body[i - 1] == ' ');
        assert(!is_digit(body[i - 1]));
    } else if !signed {
        assert(!is_digit(body[i]));
    }
}

} // verus!
