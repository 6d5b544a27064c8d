//! Text coercions: unsigned and signed integers, booleans, real-number
//! literals, and the lowercase mapping applied before numeric coercion.

use vstd::prelude::*;
use vstd::string::*;

verus! {

/// Unicode lowercase mapping of a text, as `str::to_lowercase` computes it.
pub uninterp spec fn lower_of(s: Seq<char>) -> Seq<char>;

/// Relies on `str::to_lowercase`: the result depends on the characters alone.
#[verifier::external_body]
pub(crate) fn lowercase(s: &str) -> (r: String)
    ensures
        r@ == lower_of(s@),
{
    s.to_lowercase()
}

pub open spec fn is_digit(c: char) -> bool {
    '0' <= c && c <= '9'
}

pub open spec fn all_digits(s: Seq<char>) -> bool {
    s.len() > 0 && forall|i: int| 0 <= i < s.len() ==> #[trigger] is_digit(s[i])
}

/// Decimal value of a digit string.
pub open spec fn digits_value(s: Seq<char>) -> nat
    decreases s.len(),
{
    if s.len() == 0 {
        0
    } else {
        digits_value(s.drop_last()) * 10 + ((s.last() as u32 - '0' as u32) as nat)
    }
}

/// `s` without its leading `+`, or its leading `-` where `minus_allowed`.
pub open spec fn unsigned_part(s: Seq<char>, minus_allowed: bool) -> Seq<char> {
    if s.len() > 0 && (s[0] == '+' || (minus_allowed && s[0] == '-')) {
        s.subrange(1, s.len() as int)
    } else {
        s
    }
}

/// An unsigned 32-bit integer literal: an optional `+` and decimal digits.
pub open spec fn u32_of(s: Seq<char>) -> Option<u32> {
    let d = unsigned_part(s, false);
    if all_digits(d) && digits_value(d) <= u32::MAX {
        Some(digits_value(d) as u32)
    } else {
        None
    }
}

/// A signed 32-bit integer literal: an optional `+` or `-` and decimal digits.
pub open spec fn i32_of(s: Seq<char>) -> Option<i32> {
    let d = unsigned_part(s, true);
    let negative = s.len() > 0 && s[0] == '-';
    let v: int = if negative { -digits_value(d) } else { digits_value(d) as int };
    if all_digits(d) && i32::MIN <= v && v <= i32::MAX {
        Some(v as i32)
    } else {
        None
    }
}

/// A boolean literal: exactly `true` or `false`.
pub open spec fn bool_of(s: Seq<char>) -> Option<bool> {
    if s == "true"@ {
        Some(true)
    } else if s == "false"@ {
        Some(false)
    } else {
        None
    }
}

proof fn lemma_digits_value_prefix(s: Seq<char>, k: int)
    requires
        0 <= k <= s.len(),
    ensures
        digits_value(s.subrange(0, k)) <= digits_value(s),
    decreases s.len() - k,
{
    if k < s.len() {
        lemma_digits_value_prefix(s, k + 1);
        assert(s.subrange(0, k + 1).drop_last() =~= s.subrange(0, k));
    } else {
        assert(s.subrange(0, k) =~= s);
    }
}

/// Reads the digits of `s` from index `start` on; `None` when one is not a
/// digit, when there are none, or when the value exceeds `limit`.
fn digits_from(s: &str, start: usize, limit: u64) -> (r: Option<u64>)
    requires
        start <= s@.len(),
        limit <= u32::MAX + 1,
    ensures
        ({
            let d = s@.subrange(start as int, s@.len() as int);
            match r {
                Some(v) => all_digits(d) && v == digits_value(d) && v <= limit,
                None => !(all_digits(d) && digits_value(d) <= limit),
            }
        }),
{
    let n = s.unicode_len();
    let ghost d = s@.subrange(start as int, s@.len() as int);
    if start == n {
        return None;
    }
    let mut acc: u64 = 0;
    let mut i: usize = start;
    while i < n
        invariant
            start <= i <= n,
            n == s@.len(),
            d == s@.subrange(start as int, s@.len() as int),
            limit <= u32::MAX + 1,
            acc <= limit,
            acc == digits_value(d.subrange(0, i - start)),
            forall|j: int| 0 <= j < i - start ==> #[trigger] is_digit(d[j]),
        decreases n - i,
    {
        let c = s.get_char(i);
        assert(d[i - start] == c);
        if !('0' <= c && c <= '9') {
            assert(!is_digit(d[i - start]));
            return None;
        }
        let digit = (c as u32 - '0' as u32) as u64;
        assert(d.subrange(0, i + 1 - start).drop_last() =~= d.subrange(0, i - start));
        assert(acc * 10 <= 42949672960) by (nonlinear_arith)
            requires acc <= 4294967296u64;
        if acc * 10 + digit > limit {
            proof {
                lemma_digits_value_prefix(d, i + 1 - start);
            }
            return None;
        }
        acc = acc * 10 + digit;
        i = i + 1;
    }
    assert(d.subrange(0, n - start) =~= d);
    Some(acc)
}

/// Parses an unsigned 32-bit integer literal.
pub fn parse_u32(s: &str) -> (r: Option<u32>)
    ensures
        r == u32_of(s@),
{
    let n = s.unicode_len();
    let mut start: usize = 0;
    if n > 0 && s.get_char(0) == '+' {
        start = 1;
    }
    assert(unsigned_part(s@, false) =~= s@.subrange(start as int, s@.len() as int));
    match digits_from(s, start, 4294967295) {
        Some(v) => Some(v as u32),
        None => None,
    }
}

/// Parses a signed 32-bit integer literal.
pub fn parse_i32(s: &str) -> (r: Option<i32>)
    ensures
        r == i32_of(s@),
{
    let n = s.unicode_len();
    let mut start: usize = 0;
    let mut negative = false;
    if n > 0 {
        let c = s.get_char(0);
        if c == '+' {
            start = 1;
        } else if c == '-' {
            start = 1;
            negative = true;
        }
    }
    assert(unsigned_part(s@, true) =~= s@.subrange(start as int, s@.len() as int));
    let limit: u64 = if negative { 2147483648 } else { 2147483647 };
    match digits_from(s, start, limit) {
        Some(v) => {
            if negative {
                Some((0 - (v as i64)) as i32)
            } else {
                Some(v as i32)
            }
        },
        None => None,
    }
}

/// Whether two texts hold the same characters.
pub fn same_text(a: &str, b: &str) -> (r: bool)
    ensures
        r == (a@ == b@),
{
    let n = a.unicode_len();
    if n != b.unicode_len() {
        return false;
    }
    let mut i: usize = 0;
    while i < n
        invariant
            n == a@.len(),
            n == b@.len(),
            i <= n,
            forall|j: int| 0 <= j < i ==> a@[j] == b@[j],
        decreases n - i,
    {
        if a.get_char(i) != b.get_char(i) {
            return false;
        }
        i = i + 1;
    }
    assert(a@ =~= b@);
    true
}

/// Parses a boolean literal.
pub fn parse_bool(s: &str) -> (r: Option<bool>)
    ensures
        r == bool_of(s@),
{
    if same_text(s, "true") {
        Some(true)
    } else if same_text(s, "false") {
        Some(false)
    } else {
        None
    }
}

/// State of the recogniser of a decimal number literal after reading a text:
/// 0 nothing read, 1 integer digits, 2 digits and a point, 3 a lone point,
/// 4 fraction digits, 5 an exponent mark, 6 an exponent sign,
/// 7 exponent digits, 8 rejected.
pub open spec fn number_step(state: u8, c: char) -> u8 {
    let digit = is_digit(c);
    let exp = c == 'e' || c == 'E';
    let sign = c == '+' || c == '-';
    if state == 0 {
        if digit { 1 } else if c == '.' { 3 } else { 8 }
    } else if state == 1 {
        if digit { 1 } else if c == '.' { 2 } else if exp { 5 } else { 8 }
    } else if state == 2 || state == 4 {
        if digit { 4 } else if exp { 5 } else { 8 }
    } else if state == 3 {
        if digit { 4 } else { 8 }
    } else if state == 5 {
        if digit { 7 } else if sign { 6 } else { 8 }
    } else if state == 6 || state == 7 {
        if digit { 7 } else { 8 }
    } else {
        8
    }
}

pub open spec fn number_state(s: Seq<char>) -> u8
    decreases s.len(),
{
    if s.len() == 0 {
        0
    } else {
        number_step(number_state(s.drop_last()), s.last())
    }
}

/// Digits with at most one point and at least one digit, then an optional
/// exponent: `e` or `E`, an optional sign, and digits.
pub open spec fn is_decimal_number(s: Seq<char>) -> bool {
    let q = number_state(s);
    q == 1 || q == 2 || q == 4 || q == 7
}

pub open spec fn ascii_lower_char(c: char) -> char {
    if 'A' <= c && c <= 'Z' {
        (((c as u8) + 32) as u8) as char
    } else {
        c
    }
}

/// Equality of two texts up to the case of ASCII letters.
pub open spec fn same_text_ignoring_case(a: Seq<char>, b: Seq<char>) -> bool {
    a.len() == b.len() && forall|i: int|
        0 <= i < a.len() ==> ascii_lower_char(#[trigger] a[i]) == ascii_lower_char(b[i])
}

/// A real-number literal as `f64` reads one: an optional sign, then a
/// decimal number or one of `inf`, `infinity` and `nan` in any case.
pub open spec fn is_real_literal(s: Seq<char>) -> bool {
    let body = unsigned_part(s, true);
    ||| is_decimal_number(body)
    ||| same_text_ignoring_case(body, "inf"@)
    ||| same_text_ignoring_case(body, "infinity"@)
    ||| same_text_ignoring_case(body, "nan"@)
}

fn lower_char(c: char) -> (r: char)
    ensures
        r == ascii_lower_char(c),
{
    if 'A' <= c && c <= 'Z' {
        (((c as u8) + 32) as u8) as char
    } else {
        c
    }
}

fn same_text_ignoring_case_from(a: &str, start: usize, b: &str) -> (r: bool)
    requires
        start <= a@.len(),
    ensures
        r == same_text_ignoring_case(a@.subrange(start as int, a@.len() as int), b@),
{
    let ghost x = a@.subrange(start as int, a@.len() as int);
    let n = a.unicode_len();
    let m = b.unicode_len();
    if n - start != m {
        return false;
    }
    let mut i: usize = 0;
    while i < m
        invariant
            n == a@.len(),
            m == b@.len(),
            n - start == m,
            start <= n,
            i <= m,
            x == a@.subrange(start as int, a@.len() as int),
            forall|j: int| 0 <= j < i ==> ascii_lower_char(#[trigger] x[j]) == ascii_lower_char(b@[j]),
        decreases m - i,
    {
        let c = a.get_char(start + i);
        let d = b.get_char(i);
        assert(x[i as int] == c);
        if lower_char(c) != lower_char(d) {
            return false;
        }
        i = i + 1;
    }
    true
}

fn is_decimal_number_from(s: &str, start: usize) -> (r: bool)
    requires
        start <= s@.len(),
    ensures
        r == is_decimal_number(s@.subrange(start as int, s@.len() as int)),
{
    let ghost x = s@.subrange(start as int, s@.len() as int);
    let n = s.unicode_len();
    let mut state: u8 = 0;
    let mut i: usize = start;
    while i < n
        invariant
            n == s@.len(),
            start <= i <= n,
            x == s@.subrange(start as int, s@.len() as int),
            state == number_state(x.subrange(0, i - start)),
        decreases n - i,
    {
        let c = s.get_char(i);
        assert(x[i - start] == c);
        assert(x.subrange(0, i + 1 - start).drop_last() =~= x.subrange(0, i - start));
        let digit = '0' <= c && c <= '9';
        let exp = c == 'e' || c == 'E';
        let sign = c == '+' || c == '-';
        state = if state == 0 {
            if digit { 1 } else if c == '.' { 3 } else { 8 }
        } else if state == 1 {
            if digit { 1 } else if c == '.' { 2 } else if exp { 5 } else { 8 }
        } else if state == 2 || state == 4 {
            if digit { 4 } else if exp { 5 } else { 8 }
        } else if state == 3 {
            if digit { 4 } else { 8 }
        } else if state == 5 {
            if digit { 7 } else if sign { 6 } else { 8 }
        } else if state == 6 || state == 7 {
            if digit { 7 } else { 8 }
        } else {
            8
        };
        i = i + 1;
    }
    assert(x.subrange(0, n - start) =~= x);
    state == 1 || state == 2 || state == 4 || state == 7
}

/// A real number, held as the literal it was read from. Its text is a
/// real-number literal (`is_real_literal`), which `f64` reads without fault.
#[derive(Debug, Clone, PartialEq)]
pub struct Real {
    text: String,
}

impl View for Real {
    type V = Seq<char>;

    closed spec fn view(&self) -> Seq<char> {
        self.text@
    }
}

impl Real {
    /// Reads a real-number literal.
    pub fn parse(s: &str) -> (r: Option<Real>)
        ensures
            r is Some <==> is_real_literal(s@),
            r matches Some(x) ==> x@ == s@,
    {
        let n = s.unicode_len();
        let mut start: usize = 0;
        if n > 0 {
            let c = s.get_char(0);
            if c == '+' || c == '-' {
                start = 1;
            }
        }
        assert(unsigned_part(s@, true) =~= s@.subrange(start as int, s@.len() as int));
        let ok = is_decimal_number_from(s, start) || same_text_ignoring_case_from(s, start, "inf")
            || same_text_ignoring_case_from(s, start, "infinity")
            || same_text_ignoring_case_from(s, start, "nan");
        if ok {
            Some(Real { text: s.to_string() })
        } else {
            None
        }
    }

    /// The literal the number was read from.
    pub fn as_str(&self) -> (r: &str)
        ensures
            r@ == self@,
    {
        self.text.as_str()
    }
}

} // verus!
