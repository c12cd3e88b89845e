//! Text primitives: decimal numerals, blank text and joining.

use vstd::prelude::*;

verus! {

/// The character that stands for the digit `d`.
pub open spec fn digit_char(d: nat) -> char {
    (48 + d) as char
}

/// The decimal numeral of `n`: most significant digit first, no leading zero.
pub open spec fn decimal(n: nat) -> Seq<char>
    decreases n,
{
    if n < 10 {
        seq![digit_char(n)]
    } else {
        decimal(n / 10).push(digit_char(n % 10))
    }
}

/// Whether `c` is an ASCII decimal digit.
pub open spec fn is_digit(c: char) -> bool {
    48 <= c as u32 <= 57
}

/// Whether every character of `s` is an ASCII decimal digit.
pub open spec fn all_digits(s: Seq<char>) -> bool {
    forall|i: int| 0 <= i < s.len() ==> is_digit(#[trigger] s[i])
}

/// The number that a string of decimal digits denotes.
pub open spec fn digits_value(s: Seq<char>) -> nat
    decreases s.len(),
{
    if s.len() == 0 {
        0
    } else {
        (digits_value(s.drop_last()) * 10 + (s.last() as u32 - 48)) as nat
    }
}

/// The digits of an unsigned numeral: what is left once a leading plus sign is gone.
pub open spec fn unsigned_body(s: Seq<char>) -> Seq<char> {
    if s.len() > 0 && s[0] == '+' {
        s.skip(1)
    } else {
        s
    }
}

/// What an unsigned 64-bit numeral denotes: an optional plus sign, then at least one digit and
/// nothing else, within range.
pub open spec fn parsed_unsigned(s: Seq<char>) -> Option<u64> {
    let body = unsigned_body(s);
    if body.len() > 0 && all_digits(body) && digits_value(body) <= u64::MAX {
        Some(digits_value(body) as u64)
    } else {
        None
    }
}

/// The one-character text of a digit.
fn digit_text(d: u64) -> (r: &'static str)
    requires
        d < 10,
    ensures
        r@ == seq![digit_char(d as nat)],
{
    proof {
        reveal_strlit("0");
        reveal_strlit("1");
        reveal_strlit("2");
        reveal_strlit("3");
        reveal_strlit("4");
        reveal_strlit("5");
        reveal_strlit("6");
        reveal_strlit("7");
        reveal_strlit("8");
        reveal_strlit("9");
    }
    match d {
        0 => "0",
        1 => "1",
        2 => "2",
        3 => "3",
        4 => "4",
        5 => "5",
        6 => "6",
        7 => "7",
        8 => "8",
        _ => "9",
    }
}

/// Writes `n` in decimal.
pub fn to_decimal(n: u64) -> (r: String)
    ensures
        r@ == decimal(n as nat),
    decreases n,
{
    if n < 10 {
        digit_text(n).to_owned()
    } else {
        let mut r = to_decimal(n / 10);
        r.append(digit_text(n % 10));
        proof {
            assert(r@ =~= decimal((n / 10) as nat).push(digit_char((n % 10) as nat)));
        }
        r
    }
}

/// The value of a longer numeral is at least that of each of its prefixes.
proof fn lemma_digits_value_monotone(s: Seq<char>, k: int)
    requires
        all_digits(s),
        0 <= k <= s.len(),
    ensures
        digits_value(s.take(k)) <= digits_value(s),
    decreases s.len() - k,
{
    if k == s.len() {
        assert(s.take(k) =~= s);
    } else {
        lemma_digits_value_monotone(s, k + 1);
        assert(s.take(k + 1).drop_last() =~= s.take(k));
        assert(s.take(k + 1).last() == s[k]);
        assert(is_digit(s[k]));
    }
}

/// Reads an unsigned 64-bit numeral.
pub fn parse_unsigned(s: &str) -> (r: Option<u64>)
    ensures
        r == parsed_unsigned(s@),
{
    let ghost body = unsigned_body(s@);
    let ghost sign: int = if s@.len() > 0 && s@[0] == '+' { 1 } else { 0 };
    let mut value: u64 = 0;
    let mut first: bool = true;
    let mut seen: bool = false;
    proof {
        assert(body.take(0) =~= Seq::<char>::empty());
    }
    for c in it: s.chars()
        invariant
            it.seq() == s@,
            body == unsigned_body(s@),
            sign == (if s@.len() > 0 && s@[0] == '+' { 1int } else { 0 }),
            first == (it.index() == 0),
            seen == (it.index() > sign),
            forall|k: int| 0 <= k < it.index() - sign ==> is_digit(#[trigger] body[k]),
            it.index() <= sign ==> value == 0,
            it.index() >= sign ==> value == digits_value(body.take(it.index() - sign)),
    {
        let ghost k: int = it.index() - sign;
        if first && c == '+' {
            first = false;
            proof {
                assert(body.take(0) =~= Seq::<char>::empty());
            }
        } else {
            first = false;
            seen = true;
            proof {
                assert(body[k] == c);
            }
            let code: u32 = c as u32;
            if code < 48 || code > 57 {
                proof {
                    assert(!is_digit(body[k]));
                }
                return None;
            }
            let digit: u64 = (code - 48) as u64;
            proof {
                assert(body.take(k + 1).drop_last() =~= body.take(k));
                assert(body.take(k + 1).last() == c);
                assert(digits_value(body.take(k + 1)) == value * 10 + digit);
                if all_digits(body) {
                    lemma_digits_value_monotone(body, k + 1);
                }
            }
            match value.checked_mul(10) {
                None => {
                    return None;
                },
                Some(tens) => match tens.checked_add(digit) {
                    None => {
                        return None;
                    },
                    Some(next) => {
                        value = next;
                    },
                },
            }
        }
    }
    if seen {
        proof {
            assert(body.take(s@.len() - sign) =~= body);
        }
        Some(value)
    } else {
        None
    }
}

/// A numeral is made of digits, is not empty and denotes the number it was written for.
proof fn lemma_decimal_value(n: nat)
    ensures
        decimal(n).len() > 0,
        all_digits(decimal(n)),
        digits_value(decimal(n)) == n,
    decreases n,
{
    reveal_with_fuel(digits_value, 2);
    if n >= 10 {
        lemma_decimal_value(n / 10);
        assert(decimal(n).drop_last() =~= decimal(n / 10));
        assert(decimal(n).last() == digit_char(n % 10));
    } else {
        assert(decimal(n).drop_last() =~= Seq::<char>::empty());
    }
}

/// Reading back what was written: every 64-bit number survives its decimal numeral.
pub proof fn decimal_reads_back(n: u64)
    ensures
        parsed_unsigned(decimal(n as nat)) == Some(n),
{
    lemma_decimal_value(n as nat);
    assert(is_digit(decimal(n as nat)[0]));
}

/// Distinct numbers have distinct numerals.
pub proof fn decimal_is_injective(m: u64, n: u64)
    requires
        decimal(m as nat) == decimal(n as nat),
    ensures
        m == n,
{
    decimal_reads_back(m);
    decimal_reads_back(n);
}

/// Whether `c` has the Unicode property White_Space.
pub open spec fn is_white_space(c: char) -> bool {
    let u = c as u32;
    ||| 0x9 <= u <= 0xD
    ||| u == 0x20
    ||| u == 0x85
    ||| u == 0xA0
    ||| u == 0x1680
    ||| 0x2000 <= u <= 0x200A
    ||| u == 0x2028
    ||| u == 0x2029
    ||| u == 0x202F
    ||| u == 0x205F
    ||| u == 0x3000
}

/// Whether nothing is left of `s` once it is trimmed.
pub open spec fn blank(s: Seq<char>) -> bool {
    forall|i: int| 0 <= i < s.len() ==> is_white_space(#[trigger] s[i])
}

fn white_space(c: char) -> (r: bool)
    ensures
        r == is_white_space(c),
{
    let u: u32 = c as u32;
    (0x9 <= u && u <= 0xD) || u == 0x20 || u == 0x85 || u == 0xA0 || u == 0x1680 || (0x2000 <= u
        && u <= 0x200A) || u == 0x2028 || u == 0x2029 || u == 0x202F || u == 0x205F || u == 0x3000
}

/// Tells whether a text holds nothing but white space.
pub fn is_blank(s: &str) -> (r: bool)
    ensures
        r == blank(s@),
{
    for c in it: s.chars()
        invariant
            it.seq() == s@,
            forall|k: int| 0 <= k < it.index() ==> is_white_space(#[trigger] s@[k]),
    {
        if !white_space(c) {
            proof {
                assert(!is_white_space(s@[it.index() as int]));
            }
            return false;
        }
    }
    true
}

/// Tells whether two texts are the same.
pub fn same(a: &str, b: &str) -> (r: bool)
    ensures
        r == (a@ == b@),
{
    a.to_owned() == b.to_owned()
}

/// Joins two texts.
pub fn join(a: &str, b: &str) -> (r: String)
    ensures
        r@ == a@ + b@,
{
    let mut r = a.to_owned();
    r.append(b);
    r
}

/// Numerals grow from the left: a further digit makes ten times the number and that digit.
pub proof fn numerals_grow_by_digits(n: nat, d: nat)
    requires
        d < 10,
    ensures
        decimal(d) == seq!["0123456789"@[d as int]],
        n > 0 ==> decimal(10 * n + d) == decimal(n).push("0123456789"@[d as int]),
{
    reveal_strlit("0123456789");
    assert("0123456789"@[d as int] == digit_char(d)) by {
        assert(d == 0 || d == 1 || d == 2 || d == 3 || d == 4 || d == 5 || d == 6 || d == 7 || d == 8
            || d == 9);
    }
    if n > 0 {
        let m = 10 * n + d;
        assert(m / 10 == n && m % 10 == d);
    }
}

/// Numerals are read digit by digit: a character that is no digit ends every numeral but for a plus
/// sign in front, and a digit makes ten times the number before it and that digit, as long as that
/// fits.
pub proof fn numerals_are_read_by_digits(s: Seq<char>, c: char)
    ensures
        parsed_unsigned(Seq::empty()) is None,
        !('0' <= c <= '9') ==> parsed_unsigned(s.push(c)) is None,
        '0' <= c <= '9' && (s.len() == 0 || s == seq!['+']) ==> parsed_unsigned(s.push(c)) == Some(
            (c as u64 - '0' as u64) as u64,
        ),
        '0' <= c <= '9' && s.len() > 0 && s != seq!['+'] ==> parsed_unsigned(s.push(c)) == (
        match parsed_unsigned(s) {
            Some(v) => if 10 * v + (c as int - '0' as int) <= u64::MAX {
                Some((10 * v + (c as int - '0' as int)) as u64)
            } else {
                None
            },
            None => None,
        }),
{
    let t = s.push(c);
    let body = unsigned_body(t);
    reveal_with_fuel(digits_value, 2);
    if s.len() == 0 && c == '+' {
        assert(body =~= Seq::<char>::empty());
    } else if s.len() == 0 {
        assert(body == t);
        assert(t[0] == c);
        assert(t.drop_last() =~= Seq::<char>::empty());
        assert(t.last() == c);
    } else {
        let old = unsigned_body(s);
        assert(t[0] == s[0]);
        assert(body =~= old.push(c));
        assert(body.drop_last() =~= old);
        assert(body.last() == c);
        assert(body[body.len() - 1] == c);
        if s =~= seq!['+'] {
            assert(old =~= Seq::<char>::empty());
        } else {
            assert(old.len() > 0) by {
                if s[0] == '+' && s.len() == 1 {
                    assert(s =~= seq!['+']);
                }
            }
        }
        assert(all_digits(body) <==> all_digits(old) && is_digit(c)) by {
            if all_digits(body) {
                assert forall|i: int| 0 <= i < old.len() implies is_digit(#[trigger] old[i]) by {
                    assert(is_digit(body[i]));
                }
            }
            if all_digits(old) && is_digit(c) {
                assert forall|i: int| 0 <= i < body.len() implies is_digit(#[trigger] body[i]) by {
                    if i < old.len() {
                        assert(is_digit(old[i]));
                    }
                }
            }
        }
    }
}

/// A text is blank exactly when each of its characters is white space.
pub proof fn blank_text_is_white_space_alone(s: Seq<char>, c: char)
    ensures
        blank(Seq::empty()),
        blank(s.push(c)) <==> blank(s) && (c == '\t' || c == '\n' || c == '\u{b}' || c == '\u{c}' || c
            == '\r' || c == ' ' || c == '\u{85}' || c == '\u{a0}' || c == '\u{1680}' || '\u{2000}' <= c
            <= '\u{200a}' || c == '\u{2028}' || c == '\u{2029}' || c == '\u{202f}' || c == '\u{205f}' || c
            == '\u{3000}'),
{
    let t = s.push(c);
    if blank(t) {
        assert(is_white_space(t[s.len() as int]));
        assert forall|i: int| 0 <= i < s.len() implies is_white_space(#[trigger] s[i]) by {
            assert(is_white_space(t[i]));
        }
    }
}

} // verus!
