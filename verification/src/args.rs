//! Values of command-line options: unsigned decimal numbers, the `--max-rounds` bound
//! and `--var NAME=VALUE` template variables.
use vstd::prelude::*;

use crate::text::{chars_of, find_first, first_index_of};

verus! {

/// An ASCII decimal digit.
pub open spec fn is_digit(c: char) -> bool {
    '0' <= c && c <= '9'
}

/// The value of a decimal digit.
pub open spec fn digit_value(c: char) -> int {
    (c as int) - ('0' as int)
}

/// Every character of `s` is a decimal digit.
pub open spec fn all_digits(s: Seq<char>) -> bool {
    forall|i: int| 0 <= i < s.len() ==> #[trigger] is_digit(s[i])
}

/// The number that the decimal digits `s` denote.
pub open spec fn decimal_value(s: Seq<char>) -> int
    decreases s.len(),
{
    if s.len() == 0 {
        0
    } else {
        decimal_value(s.drop_last()) * 10 + digit_value(s.last())
    }
}

/// The digits that `usize::from_str` reads: `s` without one leading `+`.
pub open spec fn unsigned_digits(s: Seq<char>) -> Seq<char> {
    if s.len() > 0 && s[0] == '+' {
        s.drop_first()
    } else {
        s
    }
}

/// What `str::parse::<usize>` gives for `s`: the value of its decimal digits, after an optional
/// `+`, when there is at least one digit, nothing else, and the value fits in `usize`.
pub open spec fn parsed_usize(s: Seq<char>) -> Option<usize> {
    let d = unsigned_digits(s);
    if d.len() > 0 && all_digits(d) && decimal_value(d) <= usize::MAX {
        Some(decimal_value(d) as usize)
    } else {
        None
    }
}

proof fn lemma_decimal_nonneg(s: Seq<char>)
    requires
        all_digits(s),
    ensures
        decimal_value(s) >= 0,
    decreases s.len(),
{
    if s.len() > 0 {
        assert(is_digit(s[s.len() - 1]));
        lemma_decimal_nonneg(s.drop_last());
    }
}

proof fn lemma_decimal_monotone(s: Seq<char>, k: int)
    requires
        all_digits(s),
        0 <= k <= s.len(),
    ensures
        decimal_value(s.take(k)) <= decimal_value(s),
    decreases s.len() - k,
{
    if k < s.len() {
        lemma_decimal_monotone(s, k + 1);
        assert(s.take(k + 1).drop_last() =~= s.take(k));
        assert(is_digit(s[k]));
        assert(all_digits(s.take(k))) by {
            assert forall|i: int| 0 <= i < s.take(k).len() implies #[trigger] is_digit(s.take(k)[i]) by {
                assert(s.take(k)[i] == s[i]);
            }
        }
        lemma_decimal_nonneg(s.take(k));
    } else {
        assert(s.take(k) =~= s);
    }
}

/// Parses an unsigned decimal number as `str::parse::<usize>` does.
pub fn parse_usize(s: &str) -> (r: Option<usize>)
    ensures
        r == parsed_usize(s@),
{
    let v = chars_of(s);
    let start: usize = if v.len() > 0 && v[0] == '+' { 1 } else { 0 };
    let ghost d = unsigned_digits(s@);
    assert(d =~= v@.skip(start as int));
    if start >= v.len() {
        return None;
    }
    let mut value: usize = 0;
    let mut i: usize = start;
    assert(d.take(0) =~= Seq::<char>::empty());
    while i < v.len()
        invariant
            v@ == s@,
            d == v@.skip(start as int),
            d == unsigned_digits(s@),
            start <= i <= v.len(),
            all_digits(d.take(i - start)),
            value as int == decimal_value(d.take(i - start)),
        decreases v.len() - i,
    {
        let c = v[i];
        assert(d[i - start] == v@[i as int]);
        if !('0' <= c && c <= '9') {
            assert(!is_digit(d[i - start]));
            assert(!all_digits(d));
            return None;
        }
        let digit = (c as u32 - '0' as u32) as usize;
        assert(digit as int == digit_value(c));
        assert(d.take(i - start + 1).drop_last() =~= d.take(i - start));
        assert(d.take(i - start + 1).last() == c);
        assert(decimal_value(d.take(i - start + 1)) == value * 10 + digit);
        assert(all_digits(d.take(i - start + 1))) by {
            assert forall|j: int| 0 <= j < d.take(i - start + 1).len() implies #[trigger] is_digit(
                d.take(i - start + 1)[j],
            ) by {
                if j < i - start {
                    assert(d.take(i - start + 1)[j] == d.take(i - start)[j]);
                }
            }
        }
        match value.checked_mul(10) {
            Some(m) => match m.checked_add(digit) {
                Some(n) => {
                    value = n;
                },
                None => {
                    proof {
                        lemma_overflow_rejects(d, (i - start) as int);
                    }
                    return None;
                },
            },
            None => {
                proof {
                    lemma_overflow_rejects(d, (i - start) as int);
                }
                return None;
            },
        }
        i = i + 1;
    }
    assert(d.take(i - start) =~= d);
    Some(value)
}

proof fn lemma_overflow_rejects(d: Seq<char>, k: int)
    requires
        0 <= k < d.len(),
        all_digits(d.take(k + 1)),
        decimal_value(d.take(k + 1)) > usize::MAX,
    ensures
        !(all_digits(d) && decimal_value(d) <= usize::MAX),
{
    if all_digits(d) {
        lemma_decimal_monotone(d, k + 1);
    }
}

/// Parses `--max-rounds`: an unsigned number from 1 to 64.
pub fn parse_max_rounds(value: &str) -> (r: Result<usize, String>)
    ensures
        match parsed_usize(value@) {
            None => r matches Err(m) && m@ == "max rounds must be an integer between 1 and 64"@,
            Some(n) => if 1 <= n <= 64 {
                r == Ok::<usize, String>(n)
            } else {
                r matches Err(m) && m@ == "max rounds must be between 1 and 64"@
            },
        },
{
    match parse_usize(value) {
        None => Err("max rounds must be an integer between 1 and 64".to_owned()),
        Some(n) => if 1 <= n && n <= 64 {
            Ok(n)
        } else {
            Err("max rounds must be between 1 and 64".to_owned())
        },
    }
}

/// Parses `--destination`: the directory must be named, so an empty value is refused before
/// any template is loaded or consent is checked.
pub fn parse_destination(value: &str) -> (r: Result<String, String>)
    ensures
        value@.len() == 0 ==> (r matches Err(m) && m@ == "destination must not be empty"@),
        value@.len() > 0 ==> (r matches Ok(d) && d@ == value@),
{
    if value.unicode_len() == 0 {
        Err("destination must not be empty".to_owned())
    } else {
        Ok(value.to_owned())
    }
}

/// Parses a `--var NAME=VALUE` template variable: the name is the text before the first `=`,
/// and it must not be empty.
pub fn parse_variable(value: &str) -> (r: Result<(String, String), String>)
    ensures
        ({
            let e = first_index_of(value@, '=');
            &&& e < 0 ==> (r matches Err(m) && m@ == "variables must use NAME=VALUE syntax"@)
            &&& e == 0 ==> (r matches Err(m) && m@ == "variable name cannot be empty"@)
            &&& e > 0 ==> (r matches Ok((n, v)) && n@ == value@.take(e) && v@ == value@.skip(e + 1))
        }),
        r matches Ok((n, v)) ==> n@.len() > 0 && !n@.contains('=') && value@ == n@ + seq!['=']
            + v@,
{
    let v = chars_of(value);
    proof { crate::text::lemma_first_index_of(v@, '='); }
    match find_first(&v, '=') {
        None => Err("variables must use NAME=VALUE syntax".to_owned()),
        Some(e) => {
            if e == 0 {
                Err("variable name cannot be empty".to_owned())
            } else {
                let n = v.len();
                let name = value.substring_char(0, e).to_owned();
                let rest = value.substring_char(e + 1, n).to_owned();
                assert(name@ =~= value@.take(e as int));
                assert(rest@ =~= value@.skip(e + 1));
                assert(value@ =~= name@ + seq!['='] + rest@);
                assert(!name@.contains('=')) by {
                    if name@.contains('=') {
                        let k = choose|k: int| 0 <= k < name@.len() && name@[k] == '=';
                        assert(v@[k] == '=');
                    }
                }
                Ok((name, rest))
            }
        },
    }
}

} // verus!

verus! {

/// The digit character for `d`.
pub open spec fn digit_char(d: int) -> char {
    if d <= 0 {
        '0'
    } else if d == 1 {
        '1'
    } else if d == 2 {
        '2'
    } else if d == 3 {
        '3'
    } else if d == 4 {
        '4'
    } else if d == 5 {
        '5'
    } else if d == 6 {
        '6'
    } else if d == 7 {
        '7'
    } else if d == 8 {
        '8'
    } else {
        '9'
    }
}

/// The decimal text of `n`, as `Display` writes it: no sign, no leading zeros.
pub open spec fn decimal_text(n: nat) -> Seq<char>
    decreases n,
{
    if n < 10 {
        seq![digit_char(n as int)]
    } else {
        decimal_text(n / 10) + seq![digit_char((n % 10) as int)]
    }
}

fn digit_str(d: u32) -> (r: &'static str)
    requires
        d < 10,
    ensures
        r@ == seq![digit_char(d as int)],
{
    proof {
        reveal_strlit("0");
        reveal_strlit("1");
        reveal_strlit("2");
        reveal_strlit("3");
        reveal_strlit("4");
        reveal_strlit("5");
        reveal_strlit("6");
        reveal_strlit("7");
        reveal_strlit("8");
        reveal_strlit("9");
    }
    let r = match d {
        0 => "0",
        1 => "1",
        2 => "2",
        3 => "3",
        4 => "4",
        5 => "5",
        6 => "6",
        7 => "7",
        8 => "8",
        _ => "9",
    };
    assert(r@ =~= seq![digit_char(d as int)]);
    r
}

/// Writes `n` in decimal.
pub fn format_u32(n: u32) -> (r: String)
    ensures
        r@ == decimal_text(n as nat),
    decreases n,
{
    if n < 10 {
        digit_str(n).to_owned()
    } else {
        let head = format_u32(n / 10);
        crate::text::concat(head.as_str(), digit_str(n % 10))
    }
}

proof fn lemma_digit_char(d: int)
    requires
        0 <= d < 10,
    ensures
        is_digit(digit_char(d)),
        digit_value(digit_char(d)) == d,
{
}

proof fn lemma_decimal_text_digits(n: nat)
    ensures
        decimal_text(n).len() > 0,
        all_digits(decimal_text(n)),
        decimal_value(decimal_text(n)) == n,
    decreases n,
{
    if n < 10 {
        let s = decimal_text(n);
        lemma_digit_char(n as int);
        assert(s.drop_last() =~= Seq::<char>::empty());
        assert(s.last() == digit_char(n as int));
        assert(decimal_value(s.drop_last()) == 0);
        assert(is_digit(s[0]));
    } else {
        lemma_decimal_text_digits(n / 10);
        lemma_digit_char((n % 10) as int);
        let s = decimal_text(n);
        assert(s.drop_last() =~= decimal_text(n / 10));
        assert(s.last() == digit_char((n % 10) as int));
        assert(decimal_value(s) == decimal_value(decimal_text(n / 10)) * 10 + (n % 10) as int);
        assert((n / 10) * 10 + n % 10 == n) by (nonlinear_arith);
        assert forall|i: int| 0 <= i < s.len() implies #[trigger] is_digit(s[i]) by {
            if i < s.len() - 1 {
                assert(s[i] == decimal_text(n / 10)[i]);
            }
        }
    }
}

/// Reading back what `format_u32` writes gives the number written.
pub proof fn lemma_format_parse_round_trip(n: u32)
    ensures
        parsed_usize(decimal_text(n as nat)) == Some(n as usize),
{
    lemma_decimal_text_digits(n as nat);
    let s = decimal_text(n as nat);
    assert(is_digit(s[0]));
    assert(unsigned_digits(s) == s);
}

} // verus!
