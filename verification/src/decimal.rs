//! Decimal text of integers: the engine's coercion between numbers and
//! strings, as far as the boundary applies it.
//!
//! A number becomes the shortest decimal text, with a leading `-` when it is
//! negative. A text is numeric when it is an optional `-` followed by one or
//! more decimal digits.

use vstd::prelude::*;
use vstd::string::StrSliceExecFns;

verus! {

/// The character of the digit `d`.
pub open spec fn digit_char(d: int) -> char {
    (d + 48) as char
}

/// Whether `c` is one of `0` to `9`.
pub open spec fn is_digit(c: char) -> bool {
    48 <= c as int <= 57
}

/// The digit that `c` stands for; 0 where it is no digit.
pub open spec fn digit_of(c: char) -> nat {
    if is_digit(c) {
        (c as int - 48) as nat
    } else {
        0
    }
}

/// The shortest decimal text of `n`.
pub open spec fn render_nat(n: nat) -> Seq<char>
    decreases n,
{
    if n < 10 {
        seq![digit_char(n as int)]
    } else {
        render_nat(n / 10).push(digit_char((n % 10) as int))
    }
}

/// The decimal text of `n`.
pub open spec fn render_int(n: int) -> Seq<char> {
    if n < 0 {
        seq!['-'] + render_nat((-n) as nat)
    } else {
        render_nat(n as nat)
    }
}

/// The number that a run of digits denotes, most significant digit first.
pub open spec fn digits_value(s: Seq<char>) -> nat
    decreases s.len(),
{
    if s.len() == 0 {
        0
    } else {
        digits_value(s.drop_last()) * 10 + digit_of(s.last())
    }
}

/// Whether every character of `s` is a digit.
pub open spec fn all_digits(s: Seq<char>) -> bool {
    forall|i: int| 0 <= i < s.len() ==> is_digit(#[trigger] s[i])
}

/// The number that a numeric text denotes; `None` where the text is not
/// numeric.
pub open spec fn parse_int(s: Seq<char>) -> Option<int> {
    if s.len() >= 2 && s[0] == '-' && all_digits(s.skip(1)) {
        Some(-(digits_value(s.skip(1)) as int))
    } else if s.len() >= 1 && all_digits(s) {
        Some(digits_value(s) as int)
    } else {
        None
    }
}

/// The 32-bit integer that a numeric text denotes; `None` where the text is
/// not numeric or the number does not fit.
pub open spec fn parse_i32_spec(s: Seq<char>) -> Option<i32> {
    match parse_int(s) {
        Some(v) => if i32::MIN <= v <= i32::MAX {
            Some(v as i32)
        } else {
            None
        },
        None => None,
    }
}

/// `String::push` of the standard library: the character is appended and
/// nothing else changes.
#[verifier::external_body]
fn push_char(s: &mut String, c: char)
    ensures
        final(s)@ == old(s)@.push(c),
{
    s.push(c);
}

fn digit(d: u8) -> (c: char)
    requires
        d < 10,
    ensures
        c == digit_char(d as int),
{
    (d + 48u8) as char
}

fn push_nat(s: &mut String, n: u64)
    ensures
        final(s)@ == old(s)@ + render_nat(n as nat),
    decreases n,
{
    let ghost before = s@;
    if n >= 10 {
        push_nat(s, n / 10);
    }
    let ghost mid = s@;
    push_char(s, digit((n % 10) as u8));
    proof {
        let d = digit_char((n % 10) as int);
        if n >= 10 {
            assert(mid.push(d) =~= before + render_nat((n / 10) as nat).push(d));
        } else {
            assert(before.push(d) =~= before + seq![d]);
        }
    }
}

/// The decimal text of `n`.
pub fn render_i32(n: i32) -> (text: String)
    ensures
        text@ == render_int(n as int),
{
    let mut text = String::new();
    if n < 0 {
        push_char(&mut text, '-');
        let magnitude: u64 = (-(n as i64)) as u64;
        push_nat(&mut text, magnitude);
        assert(text@ =~= seq!['-'] + render_nat((-(n as int)) as nat));
    } else {
        push_nat(&mut text, n as u64);
        assert(text@ =~= render_nat(n as nat));
    }
    text
}

/// The decimal text of `n`.
pub fn render_usize(n: usize) -> (text: String)
    ensures
        text@ == render_int(n as int),
{
    let mut text = String::new();
    push_nat(&mut text, n as u64);
    assert(text@ =~= render_nat(n as nat));
    text
}

/// A run of digits denotes at least what any of its prefixes denotes.
pub proof fn lemma_digits_value_prefix(s: Seq<char>, k: int)
    requires
        0 <= k <= s.len(),
    ensures
        digits_value(s.take(k)) <= digits_value(s),
    decreases s.len(),
{
    if k == s.len() {
        assert(s.take(k) =~= s);
    } else {
        lemma_digits_value_prefix(s.drop_last(), k);
        assert(s.drop_last().take(k) =~= s.take(k));
    }
}

/// The 32-bit integer that a numeric text denotes.
pub fn parse_i32(s: &str) -> (r: Option<i32>)
    ensures
        r == parse_i32_spec(s@),
{
    let n = s.unicode_len();
    if n == 0 {
        return None;
    }
    let negative = s.get_char(0) == '-';
    let start: usize = if negative { 1 } else { 0 };
    if start == n {
        return None;
    }
    let ghost body = s@.skip(start as int);
    let mut acc: u64 = 0;
    let mut i: usize = start;
    proof {
        assert(s@.subrange(start as int, i as int) =~= Seq::<char>::empty());
    }
    while i < n
        invariant
            start <= i <= n,
            n == s@.len(),
            body == s@.skip(start as int),
            negative ==> start == 1 && s@[0] == '-',
            !negative ==> start == 0 && s@[0] != '-',
            acc == digits_value(s@.subrange(start as int, i as int)),
            acc <= 2147483648,
            all_digits(s@.subrange(start as int, i as int)),
        decreases n - i,
    {
        let c = s.get_char(i);
        let code: u32 = c as u32;
        if code < 48 || code > 57 {
            proof {
                assert(body[i - start] == c);
                assert(!is_digit(c));
                assert(!all_digits(body));
                if !negative {
                    assert(body =~= s@);
                } else {
                    assert(!is_digit(s@[0]));
                }
            }
            return None;
        }
        let ghost prev = s@.subrange(start as int, i as int);
        let ghost next = s@.subrange(start as int, i + 1);
        proof {
            assert(next.drop_last() =~= prev);
            assert(next.last() == c);
            assert(is_digit(c));
            assert forall|j: int| 0 <= j < next.len() implies is_digit(#[trigger] next[j]) by {
                if j < prev.len() {
                    assert(next[j] == prev[j]);
                }
            }
        }
        acc = acc * 10 + (code - 48) as u64;
        if acc > 2147483648 {
            proof {
                assert(body.take(i + 1 - start) =~= next);
                lemma_digits_value_prefix(body, i + 1 - start);
                if !negative {
                    assert(body =~= s@);
                } else {
                    assert(!is_digit(s@[0]));
                }
            }
            return None;
        }
        i = i + 1;
    }
    proof {
        assert(s@.subrange(start as int, n as int) =~= body);
        if !negative {
            assert(body =~= s@);
        } else {
            assert(!is_digit(s@[0]));
        }
    }
    if negative {
        Some((-(acc as i64)) as i32)
    } else if acc <= 2147483647 {
        Some(acc as i32)
    } else {
        None
    }
}

/// The decimal text of a natural number is a nonempty run of digits that
/// denotes that number.
pub proof fn lemma_render_nat_digits(n: nat)
    ensures
        render_nat(n).len() >= 1,
        all_digits(render_nat(n)),
        digits_value(render_nat(n)) == n,
    decreases n,
{
    if n < 10 {
        let s = render_nat(n);
        assert(s.drop_last() =~= Seq::<char>::empty());
        assert(digits_value(s.drop_last()) == 0);
        assert(digit_of(s.last()) == n);
    } else {
        lemma_render_nat_digits(n / 10);
        let r = render_nat(n / 10);
        let d = digit_char((n % 10) as int);
        let s = r.push(d);
        assert(s.drop_last() =~= r);
        assert(digit_of(d) == n % 10);
        assert forall|j: int| 0 <= j < s.len() implies is_digit(#[trigger] s[j]) by {
            if j < r.len() {
                assert(s[j] == r[j]);
            }
        }
    }
}

/// Reading the decimal text of a number gives the number back.
pub proof fn lemma_parse_render(n: int)
    ensures
        parse_int(render_int(n)) == Some(n),
{
    if n < 0 {
        let m = (-n) as nat;
        lemma_render_nat_digits(m);
        let s = render_int(n);
        assert(s.skip(1) =~= render_nat(m));
        assert(s[0] == '-');
    } else {
        lemma_render_nat_digits(n as nat);
        let s = render_nat(n as nat);
        assert(is_digit(s[0]));
        assert(s[0] != '-');
    }
}

} // verus!
