//! Decimal text for the numeric kinds that cross the engine boundary:
//! printing module ids and integer inputs, and parsing string arguments
//! into the integer kinds a module declares.

use vstd::prelude::*;

verus! {

broadcast use vstd::string::group_string_axioms;

/// Value of a decimal digit character, or -1 for any other character.
pub open spec fn char_digit(c: char) -> int {
    if c == '0' {
        0
    } else if c == '1' {
        1
    } else if c == '2' {
        2
    } else if c == '3' {
        3
    } else if c == '4' {
        4
    } else if c == '5' {
        5
    } else if c == '6' {
        6
    } else if c == '7' {
        7
    } else if c == '8' {
        8
    } else if c == '9' {
        9
    } else {
        -1
    }
}

pub open spec fn is_digit(c: char) -> bool {
    char_digit(c) >= 0
}

pub open spec fn all_digits(s: Seq<char>) -> bool {
    forall|i: int| 0 <= i < s.len() ==> is_digit(#[trigger] s[i])
}

/// Value of a string of decimal digits, most significant first.
pub open spec fn digits_val(s: Seq<char>) -> int
    decreases s.len(),
{
    if s.len() == 0 {
        0
    } else {
        digits_val(s.drop_last()) * 10 + char_digit(s.last())
    }
}

/// Digit character for a value in 0..9.
pub open spec fn digit_char(d: int) -> char {
    if d == 0 {
        '0'
    } else if d == 1 {
        '1'
    } else if d == 2 {
        '2'
    } else if d == 3 {
        '3'
    } else if d == 4 {
        '4'
    } else if d == 5 {
        '5'
    } else if d == 6 {
        '6'
    } else if d == 7 {
        '7'
    } else if d == 8 {
        '8'
    } else {
        '9'
    }
}

/// Decimal rendering of a natural number, no sign, no leading zeros
/// (except for the number 0 itself).
pub open spec fn dec_digits(n: nat) -> Seq<char>
    decreases n,
{
    if n < 10 {
        seq![digit_char(n as int)]
    } else {
        dec_digits(n / 10).push(digit_char((n % 10) as int))
    }
}

/// Decimal rendering of an integer, with a leading '-' when negative.
pub open spec fn dec_int(v: int) -> Seq<char> {
    if v < 0 {
        seq!['-'] + dec_digits((-v) as nat)
    } else {
        dec_digits(v as nat)
    }
}

/// What it means for a string to parse as a 64-bit integer: an optional
/// sign, then one or more decimal digits, and a value within range.
pub open spec fn spec_parse_i64(s: Seq<char>) -> Option<i64> {
    let body = if s.len() > 0 && (s[0] == '-' || s[0] == '+') {
        s.drop_first()
    } else {
        s
    };
    let neg = s.len() > 0 && s[0] == '-';
    if body.len() == 0 || !all_digits(body) {
        None
    } else {
        let v = if neg {
            -digits_val(body)
        } else {
            digits_val(body)
        };
        if i64::MIN <= v <= i64::MAX {
            Some(v as i64)
        } else {
            None
        }
    }
}

pub open spec fn spec_parse_i32(s: Seq<char>) -> Option<i32> {
    match spec_parse_i64(s) {
        Some(v) => if i32::MIN <= v <= i32::MAX {
            Some(v as i32)
        } else {
            None
        },
        None => None,
    }
}

pub proof fn lemma_digits_val_nonneg(s: Seq<char>)
    requires
        all_digits(s),
    ensures
        digits_val(s) >= 0,
    decreases s.len(),
{
    if s.len() > 0 {
        assert(all_digits(s.drop_last())) by {
            assert(forall|i: int|
                0 <= i < s.drop_last().len() ==> s.drop_last()[i] == #[trigger] s[i]);
        }
        lemma_digits_val_nonneg(s.drop_last());
    }
}

/// A longer digit string never has a smaller value than its prefix.
pub proof fn lemma_digits_val_prefix(s: Seq<char>, k: int)
    requires
        all_digits(s),
        0 <= k <= s.len(),
    ensures
        digits_val(s) >= digits_val(s.take(k)),
    decreases s.len() - k,
{
    if k < s.len() {
        lemma_digits_val_prefix(s, k + 1);
        let t = s.take(k + 1);
        assert(t.drop_last() =~= s.take(k));
        assert(digits_val(t) == digits_val(s.take(k)) * 10 + char_digit(s[k]));
        assert(all_digits(s.take(k))) by {
            assert(forall|i: int| 0 <= i < k ==> s.take(k)[i] == #[trigger] s[i]);
        }
        lemma_digits_val_nonneg(s.take(k));
        assert(digits_val(s.take(k)) * 10 >= digits_val(s.take(k))) by (nonlinear_arith)
            requires digits_val(s.take(k)) >= 0;
        assert(is_digit(s[k]));
    } else {
        assert(s.take(k) =~= s);
    }
}

fn digit_of(c: char) -> (d: i32)
    ensures
        d == char_digit(c),
{
    match c {
        '0' => 0,
        '1' => 1,
        '2' => 2,
        '3' => 3,
        '4' => 4,
        '5' => 5,
        '6' => 6,
        '7' => 7,
        '8' => 8,
        '9' => 9,
        _ => -1,
    }
}

fn digit_str(d: u64) -> (r: &'static str)
    requires
        d < 10,
    ensures
        r@ == seq![digit_char(d as int)],
{
    if d == 0 {
        proof { reveal_strlit("0"); }
        assert("0"@ =~= seq![digit_char(0)]);
        "0"
    } else if d == 1 {
        proof { reveal_strlit("1"); }
        assert("1"@ =~= seq![digit_char(1)]);
        "1"
    } else if d == 2 {
        proof { reveal_strlit("2"); }
        assert("2"@ =~= seq![digit_char(2)]);
        "2"
    } else if d == 3 {
        proof { reveal_strlit("3"); }
        assert("3"@ =~= seq![digit_char(3)]);
        "3"
    } else if d == 4 {
        proof { reveal_strlit("4"); }
        assert("4"@ =~= seq![digit_char(4)]);
        "4"
    } else if d == 5 {
        proof { reveal_strlit("5"); }
        assert("5"@ =~= seq![digit_char(5)]);
        "5"
    } else if d == 6 {
        proof { reveal_strlit("6"); }
        assert("6"@ =~= seq![digit_char(6)]);
        "6"
    } else if d == 7 {
        proof { reveal_strlit("7"); }
        assert("7"@ =~= seq![digit_char(7)]);
        "7"
    } else if d == 8 {
        proof { reveal_strlit("8"); }
        assert("8"@ =~= seq![digit_char(8)]);
        "8"
    } else {
        proof { reveal_strlit("9"); }
        assert("9"@ =~= seq![digit_char(9)]);
        "9"
    }
}

/// Decimal rendering of an unsigned 64-bit number.
pub fn u64_to_string(n: u64) -> (r: String)
    ensures
        r@ == dec_digits(n as nat),
    decreases n,
{
    if n < 10 {
        String::from_str(digit_str(n))
    } else {
        let mut rest = u64_to_string(n / 10);
        rest.append(digit_str(n % 10));
        proof {
            assert(rest@ =~= dec_digits((n / 10) as nat).push(digit_char((n % 10) as int)));
        }
        rest
    }
}

/// Decimal rendering of a signed 64-bit number, as its textual form.
pub fn i64_to_string(v: i64) -> (r: String)
    ensures
        r@ == dec_int(v as int),
{
    if v >= 0 {
        u64_to_string(v as u64)
    } else {
        let mag: u64 = (-(v as i128)) as u64;
        let mut s = String::from_str("-");
        let digits = u64_to_string(mag);
        s.append(digits.as_str());
        proof {
            reveal_strlit("-");
            assert("-"@ =~= seq!['-']);
            assert(s@ =~= dec_int(v as int));
        }
        s
    }
}

/// Parses a string as a 64-bit integer: optional sign, decimal digits,
/// value within range; anything else is rejected.
pub fn parse_i64(s: &str) -> (r: Option<i64>)
    ensures
        r == spec_parse_i64(s@),
{
    let n = s.unicode_len();
    if n == 0 {
        return None;
    }
    let c0 = s.get_char(0);
    let neg = c0 == '-';
    let start: usize = if c0 == '-' || c0 == '+' {
        1
    } else {
        0
    };
    if start == n {
        return None;
    }
    let ghost body: Seq<char> = if start == 1 {
        s@.drop_first()
    } else {
        s@
    };
    proof {
        assert(body =~= s@.subrange(start as int, n as int));
    }
    let mut i = start;
    let mut acc: i128 = 0;
    while i < n
        invariant
            start <= i <= n,
            n == s@.len(),
            start == 0 || start == 1,
            start < n,
            (start == 1) <==> (s@[0] == '-' || s@[0] == '+'),
            neg == (s@[0] == '-'),
            body == s@.subrange(start as int, n as int),
            all_digits(s@.subrange(start as int, i as int)),
            acc == digits_val(s@.subrange(start as int, i as int)),
            0 <= acc <= 0x8000000000000000i128,
        decreases n - i,
    {
        let d = digit_of(s.get_char(i));
        if d < 0 {
            proof {
                assert(body[i - start] == s@[i as int]);
                assert(!all_digits(body));
            }
            return None;
        }
        proof {
            let pre = s@.subrange(start as int, i as int);
            let cur = s@.subrange(start as int, i + 1 as int);
            assert(cur.drop_last() =~= pre);
            assert(cur.last() == s@[i as int]);
            assert(forall|j: int| 0 <= j < cur.len() ==> cur[j] == #[trigger] s@[start + j]);
        }
        acc = acc * 10 + d as i128;
        if acc > 0x8000000000000000i128 {
            proof {
                let pre = s@.subrange(start as int, i as int);
                let cur = s@.subrange(start as int, i + 1 as int);
                assert(digits_val(cur) == digits_val(pre) * 10 + char_digit(s@[i as int]));
                assert(digits_val(cur) == acc);
                assert(body.len() > 0);
                if all_digits(body) {
                    assert(cur =~= body.take(i + 1 - start));
                    assert(digits_val(body.take(i + 1 - start)) == acc);
                    lemma_digits_val_prefix(body, i + 1 - start);
                    assert(digits_val(body) > 0x8000000000000000);
                    assert(-digits_val(body) < i64::MIN);
                    assert(digits_val(body) > i64::MAX);
                    if start == 1 {
                        assert(body =~= s@.drop_first());
                    } else {
                        assert(body =~= s@);
                    }
                    assert(spec_parse_i64(s@) is None);
                } else {
                    assert(spec_parse_i64(s@) is None);
                }
            }
            return None;
        }
        i += 1;
    }
    proof {
        assert(s@.subrange(start as int, i as int) =~= body);
        lemma_digits_val_nonneg(body);
    }
    if neg {
        Some((-acc) as i64)
    } else {
        if acc > 0x7fffffffffffffffi128 {
            None
        } else {
            Some(acc as i64)
        }
    }
}

/// Parses a string as a 32-bit integer, by the same grammar.
pub fn parse_i32(s: &str) -> (r: Option<i32>)
    ensures
        r == spec_parse_i32(s@),
{
    match parse_i64(s) {
        Some(v) => if -0x80000000i64 <= v && v <= 0x7fffffffi64 {
            Some(v as i32)
        } else {
            None
        },
        None => None,
    }
}

} // verus!
