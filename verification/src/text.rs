//! Text helpers shared by the key encoder and the query planner: decimal
//! rendering of integers and substring search over characters.

use vstd::prelude::*;

verus! {

/// The character that stands for the decimal digit `d`.
pub open spec fn digit_char(d: int) -> char {
    if d == 0 {
        '0'
    } else if d == 1 {
        '1'
    } else if d == 2 {
        '2'
    } else if d == 3 {
        '3'
    } else if d == 4 {
        '4'
    } else if d == 5 {
        '5'
    } else if d == 6 {
        '6'
    } else if d == 7 {
        '7'
    } else if d == 8 {
        '8'
    } else {
        '9'
    }
}

/// Whether `c` is one of the ten decimal digits.
pub open spec fn is_digit(c: char) -> bool {
    c == '0' || c == '1' || c == '2' || c == '3' || c == '4' || c == '5' || c == '6' || c == '7'
        || c == '8' || c == '9'
}

/// The number a decimal digit stands for (0 for any other character).
pub open spec fn digit_value(c: char) -> int {
    if c == '1' {
        1
    } else if c == '2' {
        2
    } else if c == '3' {
        3
    } else if c == '4' {
        4
    } else if c == '5' {
        5
    } else if c == '6' {
        6
    } else if c == '7' {
        7
    } else if c == '8' {
        8
    } else if c == '9' {
        9
    } else {
        0
    }
}

/// Decimal digits of a natural number, most significant first, without
/// leading zeros.
pub open spec fn decimal_nat(n: nat) -> Seq<char>
    decreases n,
{
    if n < 10 {
        seq![digit_char(n as int)]
    } else {
        decimal_nat(n / 10).push(digit_char((n % 10) as int))
    }
}

/// Decimal rendering of an integer: a minus sign for negative numbers,
/// then the digits of its magnitude.
pub open spec fn decimal(n: int) -> Seq<char> {
    if n < 0 {
        seq!['-'] + decimal_nat((-n) as nat)
    } else {
        decimal_nat(n as nat)
    }
}

/// The number that a sequence of decimal digits denotes.
pub open spec fn decimal_value(s: Seq<char>) -> nat
    decreases s.len(),
{
    if s.len() == 0 {
        0
    } else {
        (decimal_value(s.drop_last()) * 10 + digit_value(s.last())) as nat
    }
}

/// Every character of a decimal rendering is a digit, and there is at least one.
pub proof fn lemma_decimal_nat_digits(n: nat)
    ensures
        decimal_nat(n).len() >= 1,
        forall|i: int| 0 <= i < decimal_nat(n).len() ==> is_digit(#[trigger] decimal_nat(n)[i]),
    decreases n,
{
    if n >= 10 {
        lemma_decimal_nat_digits(n / 10);
    }
}

/// Reading back the digits of `n` gives `n`.
pub proof fn lemma_decimal_nat_value(n: nat)
    ensures
        decimal_value(decimal_nat(n)) == n,
    decreases n,
{
    if n < 10 {
        let s = decimal_nat(n);
        assert(s.drop_last() =~= Seq::<char>::empty());
        assert(decimal_value(s.drop_last()) == 0);
    } else {
        lemma_decimal_nat_value(n / 10);
        let s = decimal_nat(n);
        assert(s.drop_last() =~= decimal_nat(n / 10));
    }
}

/// Two integers with the same decimal rendering are the same integer.
pub proof fn lemma_decimal_injective(a: int, b: int)
    requires
        decimal(a) == decimal(b),
    ensures
        a == b,
{
    let ma: nat = if a < 0 { (-a) as nat } else { a as nat };
    let mb: nat = if b < 0 { (-b) as nat } else { b as nat };
    lemma_decimal_nat_digits(ma);
    lemma_decimal_nat_digits(mb);
    lemma_decimal_nat_value(ma);
    lemma_decimal_nat_value(mb);
    if a < 0 {
        assert(decimal(a)[0] == '-');
        if b >= 0 {
            assert(is_digit(decimal_nat(mb)[0]));
        } else {
            assert(decimal(a).subrange(1, decimal(a).len() as int) =~= decimal_nat(ma));
            assert(decimal(b).subrange(1, decimal(b).len() as int) =~= decimal_nat(mb));
        }
    } else {
        if b < 0 {
            assert(decimal(b)[0] == '-');
            assert(is_digit(decimal_nat(ma)[0]));
        }
    }
}

/// A decimal rendering holds only digits and, at most, a leading minus sign.
pub proof fn lemma_decimal_chars(n: int)
    ensures
        decimal(n).len() >= 1,
        forall|i: int|
            0 <= i < decimal(n).len() ==> is_digit(#[trigger] decimal(n)[i]) || decimal(n)[i]
                == '-',
{
    let m: nat = if n < 0 { (-n) as nat } else { n as nat };
    lemma_decimal_nat_digits(m);
    if n < 0 {
        assert forall|i: int| 0 <= i < decimal(n).len() implies is_digit(#[trigger] decimal(n)[i])
            || decimal(n)[i] == '-' by {
            if i > 0 {
                assert(decimal(n)[i] == decimal_nat(m)[i - 1]);
            }
        }
    }
}

/// The one-character string for the decimal digit `d`.
fn digit_str(d: u64) -> (r: &'static str)
    requires
        d < 10,
    ensures
        r@ == seq![digit_char(d as int)],
{
    proof {
        reveal_strlit("0");
        reveal_strlit("1");
        reveal_strlit("2");
        reveal_strlit("3");
        reveal_strlit("4");
        reveal_strlit("5");
        reveal_strlit("6");
        reveal_strlit("7");
        reveal_strlit("8");
        reveal_strlit("9");
    }
    let r = if d == 0 {
        "0"
    } else if d == 1 {
        "1"
    } else if d == 2 {
        "2"
    } else if d == 3 {
        "3"
    } else if d == 4 {
        "4"
    } else if d == 5 {
        "5"
    } else if d == 6 {
        "6"
    } else if d == 7 {
        "7"
    } else if d == 8 {
        "8"
    } else {
        "9"
    };
    assert(r@ =~= seq![digit_char(d as int)]);
    r
}

/// Appends the decimal digits of `n` to `out`.
pub fn push_decimal_nat(out: &mut String, n: u64)
    ensures
        final(out)@ == old(out)@ + decimal_nat(n as nat),
    decreases n,
{
    if n >= 10 {
        push_decimal_nat(out, n / 10);
    }
    out.append(digit_str(n % 10));
    assert(final(out)@ =~= old(out)@ + decimal_nat(n as nat));
}

/// Appends the decimal rendering of `n` to `out`.
pub fn push_decimal(out: &mut String, n: i64)
    ensures
        final(out)@ == old(out)@ + decimal(n as int),
{
    if n < 0 {
        proof {
            reveal_strlit("-");
        }
        out.append("-");
        let magnitude: u64 = ((-(n + 1)) as u64) + 1;
        push_decimal_nat(out, magnitude);
        assert(final(out)@ =~= old(out)@ + decimal(n as int));
    } else {
        push_decimal_nat(out, n as u64);
    }
}

/// Whether `needle` stands in `hay` at position `at`.
pub open spec fn occurs_at(hay: Seq<char>, needle: Seq<char>, at: int) -> bool {
    &&& 0 <= at
    &&& at + needle.len() <= hay.len()
    &&& hay.subrange(at, at + needle.len()) == needle
}

/// Whether `needle` occurs somewhere in `hay` as a contiguous run of
/// characters. Every character is taken literally and compared exactly.
pub open spec fn contains_text(hay: Seq<char>, needle: Seq<char>) -> bool {
    exists|at: int| occurs_at(hay, needle, at)
}

/// The characters of `s`, one by one.
pub fn chars_of(s: &str) -> (r: Vec<char>)
    ensures
        r@ == s@,
{
    let n = s.unicode_len();
    let mut out: Vec<char> = Vec::new();
    let mut i: usize = 0;
    while i < n
        invariant
            n == s@.len(),
            i <= n,
            out@ == s@.subrange(0, i as int),
        decreases n - i,
    {
        out.push(s.get_char(i));
        i = i + 1;
        assert(out@ =~= s@.subrange(0, i as int));
    }
    assert(out@ =~= s@);
    out
}

/// Whether `needle` stands in `hay` at position `at`.
fn matches_at(hay: &Vec<char>, needle: &Vec<char>, at: usize) -> (r: bool)
    requires
        at + needle.len() <= hay.len(),
    ensures
        r == occurs_at(hay@, needle@, at as int),
{
    let m = needle.len();
    let mut j: usize = 0;
    while j < m
        invariant
            m == needle.len(),
            at + m <= hay.len(),
            j <= m,
            forall|k: int| 0 <= k < j ==> hay@[at + k] == needle@[k],
        decreases m - j,
    {
        if hay[at + j] != needle[j] {
            proof {
                let window = hay@.subrange(at as int, at + m);
                assert(window[j as int] == hay@[at + j]);
            }
            return false;
        }
        j = j + 1;
    }
    assert(hay@.subrange(at as int, at + m) =~= needle@);
    true
}

/// Substring test on characters: whether `needle` occurs in `hay`.
pub fn text_contains(hay: &str, needle: &str) -> (r: bool)
    ensures
        r == contains_text(hay@, needle@),
{
    let h = chars_of(hay);
    let n = chars_of(needle);
    if n.len() > h.len() {
        assert(!contains_text(hay@, needle@));
        return false;
    }
    let last: usize = h.len() - n.len();
    let mut at: usize = 0;
    while at < last
        invariant
            h@ == hay@,
            n@ == needle@,
            n.len() <= h.len(),
            last == h.len() - n.len(),
            at <= last,
            forall|k: int| 0 <= k < at ==> !occurs_at(hay@, needle@, k),
        decreases last - at,
    {
        if matches_at(&h, &n, at) {
            return true;
        }
        at = at + 1;
    }
    if matches_at(&h, &n, last) {
        return true;
    }
    assert forall|k: int| !occurs_at(hay@, needle@, k) by {
        if 0 <= k && k + needle@.len() <= hay@.len() {
            assert(k <= last);
        }
    }
    false
}

/// The text of `v`, or `default` where `v` is absent.
pub open spec fn text_or(v: Option<String>, default: Seq<char>) -> Seq<char> {
    match v {
        Some(s) => s@,
        None => default,
    }
}

/// The text of `v`, or `default` where `v` is absent.
pub fn or_default(v: &Option<String>, default: &str) -> (r: String)
    ensures
        r@ == text_or(*v, default@),
{
    match v {
        Some(s) => s.clone(),
        None => default.to_string(),
    }
}

/// Whether `s` reads exactly `text`.
pub fn text_is(s: &String, text: &str) -> (r: bool)
    ensures
        r == (s@ == text@),
{
    let t = text.to_string();
    *s == t
}

/// The fields of `s` between occurrences of `sep`: one more than there
/// are separators, each possibly empty.
pub open spec fn split_fields(s: Seq<char>, sep: char) -> Seq<Seq<char>>
    decreases s.len(),
{
    if s.len() == 0 {
        seq![Seq::<char>::empty()]
    } else {
        let init = split_fields(s.drop_last(), sep);
        if s.last() == sep {
            init.push(Seq::<char>::empty())
        } else {
            init.update(init.len() - 1, init.last().push(s.last()))
        }
    }
}

/// `s` with the white space at both ends removed, as `str::trim` of the
/// standard library removes it.
pub uninterp spec fn trimmed(s: Seq<char>) -> Seq<char>;

/// `str::trim` of the standard library, which removes leading and
/// trailing white space as Unicode defines it.
///
/// Trusted: the result is what `trimmed` names; nothing else is claimed.
#[verifier::external_body]
pub(crate) fn trim(s: &str) -> (r: String)
    ensures
        r@ == trimmed(s@),
{
    s.trim().to_string()
}

/// Mathematical content of a list of texts.
pub open spec fn texts_of(v: Seq<String>) -> Seq<Seq<char>> {
    v.map_values(|s: String| s@)
}

/// Splits `s` at every `sep` and trims each field.
pub fn split_trimmed(s: &str, sep: char) -> (r: Vec<String>)
    ensures
        texts_of(r@) == split_fields(s@, sep).map_values(|f: Seq<char>| trimmed(f)),
{
    let chars = chars_of(s);
    let n = chars.len();
    let mut out: Vec<String> = Vec::new();
    let mut start: usize = 0;
    let mut i: usize = 0;
    let ghost trim_field = |f: Seq<char>| trimmed(f);
    proof {
        assert(s@.take(0) =~= Seq::<char>::empty());
        assert(split_fields(s@.take(0), sep) =~= seq![Seq::<char>::empty()]);
        assert(s@.subrange(0, 0) =~= Seq::<char>::empty());
    }
    while i < n
        invariant
            chars@ == s@,
            n == s@.len(),
            start <= i <= n,
            trim_field == |f: Seq<char>| trimmed(f),
            split_fields(s@.take(i as int), sep).len() == out.len() + 1,
            split_fields(s@.take(i as int), sep).last() == s@.subrange(start as int, i as int),
            texts_of(out@) == split_fields(s@.take(i as int), sep).drop_last().map_values(
                trim_field,
            ),
        decreases n - i,
    {
        let ghost before = split_fields(s@.take(i as int), sep);
        proof {
            assert(s@.take(i + 1).drop_last() =~= s@.take(i as int));
            assert(s@.take(i + 1).last() == s@[i as int]);
        }
        if chars[i] == sep {
            let field = s.substring_char(start, i);
            let ghost done = texts_of(out@);
            out.push(trim(field));
            start = i + 1;
            proof {
                let now = split_fields(s@.take(i + 1), sep);
                assert(now == before.push(Seq::<char>::empty()));
                assert(now.drop_last() =~= before);
                assert(before =~= before.drop_last().push(before.last()));
                assert(texts_of(out@) =~= done.push(trimmed(before.last())));
                assert(texts_of(out@) =~= now.drop_last().map_values(trim_field));
                assert(s@.subrange(start as int, i + 1) =~= Seq::<char>::empty());
            }
        } else {
            proof {
                let now = split_fields(s@.take(i + 1), sep);
                assert(now == before.update(before.len() - 1, before.last().push(s@[i as int])));
                assert(now.drop_last() =~= before.drop_last());
                assert(s@.subrange(start as int, i + 1) =~= s@.subrange(
                    start as int,
                    i as int,
                ).push(s@[i as int]));
            }
        }
        i = i + 1;
    }
    let field = s.substring_char(start, n);
    let ghost done = texts_of(out@);
    out.push(trim(field));
    proof {
        assert(s@.take(n as int) =~= s@);
        let all = split_fields(s@, sep);
        assert(all =~= all.drop_last().push(all.last()));
        assert(texts_of(out@) =~= done.push(trimmed(all.last())));
        assert(texts_of(out@) =~= all.map_values(trim_field));
    }
    out
}

/// Whether every character of `s` is a decimal digit.
pub open spec fn all_digits(s: Seq<char>) -> bool {
    forall|i: int| 0 <= i < s.len() ==> is_digit(#[trigger] s[i])
}

/// The number that `s` spells as a 16-bit unsigned integer: an optional
/// plus sign, then one or more decimal digits whose value is at most
/// 65535. Anything else, white space included, spells no number.
pub open spec fn parse_u16_spec(s: Seq<char>) -> Option<u16> {
    let digits = if s.len() > 0 && s[0] == '+' {
        s.subrange(1, s.len() as int)
    } else {
        s
    };
    if digits.len() > 0 && all_digits(digits) && decimal_value(digits) <= 65535 {
        Some(decimal_value(digits) as u16)
    } else {
        None
    }
}

/// A prefix of a digit string spells no greater a number than the whole.
pub proof fn lemma_decimal_value_prefix(s: Seq<char>, k: int)
    requires
        0 <= k <= s.len(),
    ensures
        decimal_value(s.take(k)) <= decimal_value(s),
    decreases s.len(),
{
    if k == s.len() {
        assert(s.take(k) =~= s);
    } else {
        lemma_decimal_value_prefix(s.drop_last(), k);
        assert(s.drop_last().take(k) =~= s.take(k));
        assert(decimal_value(s.drop_last()) * 10 >= decimal_value(s.drop_last()))
            by (nonlinear_arith);
    }
}

/// The value of the decimal digit `c`, or `None` where `c` is no digit.
fn digit_of(c: char) -> (r: Option<u32>)
    ensures
        r is Some <==> is_digit(c),
        r matches Some(d) ==> d == digit_value(c) && d <= 9,
{
    if c == '0' {
        Some(0)
    } else if c == '1' {
        Some(1)
    } else if c == '2' {
        Some(2)
    } else if c == '3' {
        Some(3)
    } else if c == '4' {
        Some(4)
    } else if c == '5' {
        Some(5)
    } else if c == '6' {
        Some(6)
    } else if c == '7' {
        Some(7)
    } else if c == '8' {
        Some(8)
    } else if c == '9' {
        Some(9)
    } else {
        None
    }
}

/// Reads `s` as a 16-bit unsigned integer.
pub fn parse_u16(s: &str) -> (r: Option<u16>)
    ensures
        r == parse_u16_spec(s@),
{
    let chars = chars_of(s);
    let n = chars.len();
    let first: usize = if n > 0 && chars[0] == '+' {
        1
    } else {
        0
    };
    if first == n {
        return None;
    }
    let ghost digits = s@.subrange(first as int, n as int);
    proof {
        if first == 0 {
            assert(digits =~= s@);
        }
    }
    let mut acc: u32 = 0;
    let mut i: usize = first;
    proof {
        assert(digits.take(0) =~= Seq::<char>::empty());
    }
    while i < n
        invariant
            chars@ == s@,
            n == s@.len(),
            first <= i <= n,
            first < n,
            first == if s@.len() > 0 && s@[0] == '+' { 1int } else { 0int },
            digits == s@.subrange(first as int, n as int),
            first == 0 ==> digits == s@,
            all_digits(digits.take(i - first)),
            acc == decimal_value(digits.take(i - first)),
            acc <= 65535,
        decreases n - i,
    {
        let ghost k = i - first;
        proof {
            assert(digits.take(k + 1).drop_last() =~= digits.take(k));
            assert(digits.take(k + 1).last() == s@[i as int]);
        }
        match digit_of(chars[i]) {
            Some(d) => {
                let next = acc * 10 + d;
                proof {
                    assert forall|j: int| 0 <= j < k + 1 implies is_digit(
                        #[trigger] digits.take(k + 1)[j],
                    ) by {
                        if j < k {
                            assert(digits.take(k + 1)[j] == digits.take(k)[j]);
                        }
                    }
                }
                assert(decimal_value(digits.take(k + 1)) == next);
                if next > 65535 {
                    proof {
                        lemma_decimal_value_prefix(digits, k + 1);
                    }
                    return None;
                }
                acc = next;
            },
            None => {
                proof {
                    assert(digits[k] == s@[i as int]);
                    assert(!all_digits(digits));
                }
                return None;
            },
        }
        i = i + 1;
    }
    proof {
        assert(digits.take(n - first) =~= digits);
    }
    Some(acc as u16)
}

/// What is left of `s` after `prefix`, where `s` starts with it.
pub open spec fn without_prefix(s: Seq<char>, prefix: Seq<char>) -> Option<Seq<char>> {
    if prefix.len() <= s.len() && s.subrange(0, prefix.len() as int) == prefix {
        Some(s.subrange(prefix.len() as int, s.len() as int))
    } else {
        None
    }
}

/// What is left of `s` after `prefix`; `None` where `s` does not start
/// with it.
pub fn strip_prefix<'a>(s: &'a str, prefix: &str) -> (r: Option<&'a str>)
    ensures
        match r {
            Some(rest) => without_prefix(s@, prefix@) == Some(rest@),
            None => without_prefix(s@, prefix@) is None,
        },
{
    let hay = chars_of(s);
    let head = chars_of(prefix);
    if head.len() > hay.len() {
        return None;
    }
    if matches_at(&hay, &head, 0) {
        Some(s.substring_char(head.len(), hay.len()))
    } else {
        None
    }
}

} // verus!
