//! Text helpers: prefixes, trimming, decimal digits.

use vstd::prelude::*;

verus! {

/// `String::push` of std appends the given character to the end of the string.
pub assume_specification[ String::push ](s: &mut String, c: char)
    ensures
        final(s)@ == old(s)@.push(c),
;

/// The texts of a list of strings.
pub open spec fn texts(list: Seq<String>) -> Seq<Seq<char>> {
    list.map_values(|s: String| s@)
}

/// The characters of `s`, in order.
pub fn chars_of(s: &str) -> (r: Vec<char>)
    ensures
        r@ == s@,
{
    let mut out: Vec<char> = Vec::new();
    for c in it: s.chars()
        invariant
            it.seq() == s@,
            out@ == s@.take(it.index()),
    {
        out.push(c);
        assert(out@ =~= s@.take(it.index() + 1));
    }
    assert(s@.take(s@.len() as int) =~= s@);
    out
}

/// Whether `s` and `other` hold the same characters.
pub fn same_text(s: &str, other: &str) -> (r: bool)
    ensures
        r == (s@ == other@),
{
    let a = chars_of(s);
    let b = chars_of(other);
    if a.len() != b.len() {
        return false;
    }
    for i in 0..a.len()
        invariant
            a@ == s@,
            b@ == other@,
            a@.len() == b@.len(),
            forall|j: int| 0 <= j < i ==> a@[j] == b@[j],
    {
        if a[i] != b[i] {
            return false;
        }
    }
    assert(a@ =~= b@);
    true
}

/// Whether `s` begins with `prefix`.
pub fn starts_with(s: &str, prefix: &str) -> (r: bool)
    ensures
        r == prefix@.is_prefix_of(s@),
{
    let a = chars_of(s);
    let b = chars_of(prefix);
    matches_at(&a, &b, 0)
}

/// Whether the characters of `b` stand in `a` from position `at` on.
fn matches_at(a: &Vec<char>, b: &Vec<char>, at: usize) -> (r: bool)
    requires
        at <= a@.len(),
    ensures
        r == (at + b@.len() <= a@.len() && a@.subrange(at as int, at + b@.len()) == b@),
        at == 0 ==> r == b@.is_prefix_of(a@),
{
    if b.len() > a.len() - at {
        return false;
    }
    for i in 0..b.len()
        invariant
            at + b@.len() <= a.len(),
            forall|j: int| 0 <= j < i ==> a@[at + j] == b@[j],
    {
        if a[at + i] != b[i] {
            assert(a@.subrange(at as int, at + b@.len())[i as int] == a@[at + i]);
            return false;
        }
    }
    assert(a@.subrange(at as int, at + b@.len()) =~= b@);
    true
}

/// Whether the characters of `needle` occur in `s`, one after the other.
pub open spec fn occurs(needle: Seq<char>, s: Seq<char>) -> bool {
    exists|i: int|
        0 <= i && i + needle.len() <= s.len() && #[trigger] s.subrange(i, i + needle.len())
            == needle
}

/// Whether `needle` occurs in `s`.
pub fn contains(s: &str, needle: &str) -> (r: bool)
    ensures
        r == occurs(needle@, s@),
{
    let a = chars_of(s);
    let b = chars_of(needle);
    let mut at: usize = 0;
    while at < a.len()
        invariant
            a@ == s@,
            b@ == needle@,
            at <= a@.len(),
            forall|i: int|
                0 <= i < at && i + b@.len() <= a@.len() ==> #[trigger] a@.subrange(
                    i,
                    i + b@.len(),
                ) != b@,
        decreases a@.len() - at,
    {
        if matches_at(&a, &b, at) {
            return true;
        }
        at += 1;
    }
    matches_at(&a, &b, at)
}

/// The Unicode white space characters.
pub open spec fn is_space(c: char) -> bool {
    let n = c as u32;
    ||| 0x09 <= n <= 0x0d
    ||| n == 0x20
    ||| n == 0x85
    ||| n == 0xa0
    ||| n == 0x1680
    ||| 0x2000 <= n <= 0x200a
    ||| n == 0x2028
    ||| n == 0x2029
    ||| n == 0x202f
    ||| n == 0x205f
    ||| n == 0x3000
}

/// Whether `c` is a Unicode white space character.
pub fn space(c: char) -> (r: bool)
    ensures
        r == is_space(c),
{
    let n: u32 = c as u32;
    (0x09 <= n && n <= 0x0d) || n == 0x20 || n == 0x85 || n == 0xa0 || n == 0x1680 || (0x2000 <= n
        && n <= 0x200a) || n == 0x2028 || n == 0x2029 || n == 0x202f || n == 0x205f || n == 0x3000
}

/// `s` without the white space that it begins with.
pub open spec fn trimmed_start(s: Seq<char>) -> Seq<char>
    decreases s.len(),
{
    if s.len() > 0 && is_space(s[0]) {
        trimmed_start(s.skip(1))
    } else {
        s
    }
}

/// `s` without the white space that it ends with.
pub open spec fn trimmed_end(s: Seq<char>) -> Seq<char>
    decreases s.len(),
{
    if s.len() > 0 && is_space(s.last()) {
        trimmed_end(s.drop_last())
    } else {
        s
    }
}

/// `s` without the white space at either end.
pub open spec fn trimmed(s: Seq<char>) -> Seq<char> {
    trimmed_end(trimmed_start(s))
}

/// `s` without the white space at either end.
pub fn trim(s: &str) -> (r: String)
    ensures
        r@ == trimmed(s@),
{
    let a = chars_of(s);
    let mut from: usize = 0;
    assert(a@.skip(0) =~= a@);
    while from < a.len() && space(a[from])
        invariant
            a@ == s@,
            from <= a@.len(),
            trimmed_start(a@) == trimmed_start(a@.skip(from as int)),
        decreases a@.len() - from,
    {
        assert(a@.skip(from as int).skip(1) =~= a@.skip(from + 1));
        from += 1;
    }
    let ghost rest = a@.skip(from as int);
    assert(trimmed_start(a@) == rest);
    let mut to: usize = a.len();
    assert(a@.subrange(from as int, to as int) =~= rest);
    while to > from && space(a[to - 1])
        invariant
            from <= to <= a@.len(),
            trimmed_end(rest) == trimmed_end(a@.subrange(from as int, to as int)),
        decreases to,
    {
        assert(a@.subrange(from as int, to as int).drop_last() =~= a@.subrange(
            from as int,
            to - 1,
        ));
        to -= 1;
    }
    let mut out = String::new();
    let mut i: usize = from;
    while i < to
        invariant
            from <= i <= to <= a@.len(),
            out@ == a@.subrange(from as int, i as int),
        decreases to - i,
    {
        out.push(a[i]);
        i += 1;
        assert(out@ =~= a@.subrange(from as int, i as int));
    }
    out
}

/// The decimal digit for `n`, which is less than ten.
pub open spec fn digit(n: int) -> char {
    (0x30 + n) as char
}

/// The number `n` in decimal digits, without leading zeros.
pub open spec fn decimal(n: nat) -> Seq<char>
    decreases n,
{
    if n < 10 {
        seq![digit(n as int)]
    } else {
        decimal(n / 10).push(digit((n % 10) as int))
    }
}

/// Appends the decimal digits of `n`.
pub fn push_decimal(out: &mut String, n: u64)
    ensures
        final(out)@ == old(out)@ + decimal(n as nat),
    decreases n,
{
    if n >= 10 {
        push_decimal(out, n / 10);
    }
    let ghost before = out@;
    let d: u8 = (n % 10) as u8;
    out.push((0x30 + d) as char);
    assert(out@ =~= old(out)@ + decimal(n as nat));
}

/// The number that a sequence of decimal digits stands for.
pub open spec fn digits_value(s: Seq<char>) -> nat
    decreases s.len(),
{
    if s.len() == 0 {
        0
    } else {
        digits_value(s.drop_last()) * 10 + (s.last() as u32 - 0x30) as nat
    }
}

/// Whether `c` is an ASCII decimal digit.
pub open spec fn is_digit(c: char) -> bool {
    0x30 <= c as u32 <= 0x39
}

/// Whether every character of `s` is an ASCII decimal digit.
pub open spec fn all_digits(s: Seq<char>) -> bool {
    forall|i: int| 0 <= i < s.len() ==> is_digit(#[trigger] s[i])
}

/// `s` without the plus sign that it may begin with.
pub open spec fn without_plus(s: Seq<char>) -> Seq<char> {
    if s.len() > 0 && s[0] == '+' {
        s.skip(1)
    } else {
        s
    }
}

/// The number that `s` writes in decimal, with an optional plus sign before its digits; `None`
/// where `s` is anything else, or where the number is more than `max`.
pub open spec fn parsed_unsigned(s: Seq<char>, max: nat) -> Option<nat> {
    let digits = without_plus(s);
    if digits.len() > 0 && all_digits(digits) && digits_value(digits) <= max {
        Some(digits_value(digits))
    } else {
        None
    }
}

/// Reads an unsigned decimal number of at most `max`.
pub fn parse_unsigned(s: &str, max: u64) -> (r: Option<u64>)
    ensures
        r is Some == parsed_unsigned(s@, max as nat) is Some,
        r is Some ==> r->0 as nat == parsed_unsigned(s@, max as nat)->0,
{
    let a = chars_of(s);
    let mut from: usize = 0;
    if a.len() > 0 && a[0] == '+' {
        from = 1;
    }
    let ghost digits = a@.skip(from as int);
    assert(digits =~= without_plus(s@));
    if from == a.len() {
        return None;
    }
    let mut value: u64 = 0;
    let mut over: bool = false;
    let mut i: usize = from;
    while i < a.len()
        invariant
            from <= i <= a@.len(),
            digits == a@.skip(from as int),
            digits == without_plus(s@),
            forall|j: int| 0 <= j < i - from ==> is_digit(#[trigger] digits[j]),
            over ==> digits_value(digits.take(i - from)) > max,
            !over ==> digits_value(digits.take(i - from)) == value && value <= max,
        decreases a@.len() - i,
    {
        let n: u32 = a[i] as u32;
        assert(digits[i - from] == a@[i as int]);
        if n < 0x30 || n > 0x39 {
            assert(!is_digit(digits[i - from]) && !all_digits(digits));
            return None;
        }
        let d: u64 = (n - 0x30) as u64;
        assert(digits.take(i + 1 - from).drop_last() =~= digits.take(i - from));
        if !over {
            if d > max || value > (max - d) / 10 {
                over = true;
            } else {
                value = value * 10 + d;
            }
        }
        i += 1;
    }
    assert(digits.take(a@.len() - from) =~= digits);
    if over {
        None
    } else {
        Some(value)
    }
}

/// The texts of a list are those of its strings, each at its own place.
pub proof fn law_texts_keep_their_places(list: Seq<String>)
    ensures
        texts(list).len() == list.len(),
        forall|i: int| 0 <= i < list.len() ==> #[trigger] texts(list)[i] == list[i]@,
{
}

/// A text occurs in another exactly where the other is made of it, of what stands before it and of
/// what stands after it.
pub proof fn law_an_occurrence_splits_the_text(needle: Seq<char>, s: Seq<char>)
    ensures
        occurs(needle, s) <==> exists|before: Seq<char>, after: Seq<char>|
            s == #[trigger] (before + needle + after),
{
    if occurs(needle, s) {
        let i = choose|i: int|
            0 <= i && i + needle.len() <= s.len() && #[trigger] s.subrange(i, i + needle.len())
                == needle;
        let end = i + needle.len();
        assert(s =~= s.take(i) + s.subrange(i, end) + s.skip(end));
        assert(s == s.take(i) + needle + s.skip(end));
    }
    if exists|before: Seq<char>, after: Seq<char>| s == #[trigger] (before + needle + after) {
        let (before, after) = choose|before: Seq<char>, after: Seq<char>|
            s == #[trigger] (before + needle + after);
        let i = before.len() as int;
        assert(s.subrange(i, i + needle.len()) =~= needle);
    }
}

/// White space is what Unicode calls so: tabs, line and page ends, blanks of every width, and the
/// separators of lines and paragraphs.
pub proof fn law_white_space(c: char)
    ensures
        is_space(c) <==> "\t\n\u{b}\u{c}\r \u{85}\u{a0}\u{1680}\u{2000}\u{2001}\u{2002}\u{2003}\u{2004}\u{2005}\u{2006}\u{2007}\u{2008}\u{2009}\u{200a}\u{2028}\u{2029}\u{202f}\u{205f}\u{3000}"@.contains(
        c),
{
    reveal_strlit(
        "\t\n\u{b}\u{c}\r \u{85}\u{a0}\u{1680}\u{2000}\u{2001}\u{2002}\u{2003}\u{2004}\u{2005}\u{2006}\u{2007}\u{2008}\u{2009}\u{200a}\u{2028}\u{2029}\u{202f}\u{205f}\u{3000}",
    );
    let all =
        "\t\n\u{b}\u{c}\r \u{85}\u{a0}\u{1680}\u{2000}\u{2001}\u{2002}\u{2003}\u{2004}\u{2005}\u{2006}\u{2007}\u{2008}\u{2009}\u{200a}\u{2028}\u{2029}\u{202f}\u{205f}\u{3000}"@;
    if is_space(c) {
        let n = c as int;
        let k: int = if n <= 0x0d {
            n - 0x09
        } else if n == 0x20 {
            5
        } else if n == 0x85 {
            6
        } else if n == 0xa0 {
            7
        } else if n == 0x1680 {
            8
        } else if n <= 0x200a {
            n - 0x2000 + 9
        } else if n == 0x2028 {
            20
        } else if n == 0x2029 {
            21
        } else if n == 0x202f {
            22
        } else if n == 0x205f {
            23
        } else {
            24
        };
        assert(all[k] == c);
    }
}

proof fn lemma_trimmed_start(s: Seq<char>) -> (from: int)
    ensures
        0 <= from <= s.len(),
        trimmed_start(s) == s.skip(from),
        forall|i: int| 0 <= i < from ==> is_space(#[trigger] s[i]),
        from < s.len() ==> !is_space(s[from]),
    decreases s.len(),
{
    if s.len() > 0 && is_space(s[0]) {
        let rest = s.skip(1);
        let from = lemma_trimmed_start(rest);
        assert(rest.skip(from) =~= s.skip(from + 1));
        assert forall|i: int| 0 <= i < from + 1 implies is_space(#[trigger] s[i]) by {
            if i > 0 {
                assert(rest[i - 1] == s[i]);
            }
        }
        from + 1
    } else {
        assert(s.skip(0) =~= s);
        0
    }
}

proof fn lemma_trimmed_end(s: Seq<char>) -> (to: int)
    ensures
        0 <= to <= s.len(),
        trimmed_end(s) == s.take(to),
        forall|i: int| to <= i < s.len() ==> is_space(#[trigger] s[i]),
        0 < to ==> !is_space(s[to - 1]),
    decreases s.len(),
{
    if s.len() > 0 && is_space(s.last()) {
        let rest = s.drop_last();
        let to = lemma_trimmed_end(rest);
        assert(rest.take(to) =~= s.take(to));
        assert forall|i: int| to <= i < s.len() implies is_space(#[trigger] s[i]) by {
            if i < rest.len() {
                assert(rest[i] == s[i]);
            }
        }
        to
    } else {
        assert(s.take(s.len() as int) =~= s);
        s.len() as int
    }
}

/// Trimming takes white space away at both ends, all of it, and nothing else: what is left is a
/// piece of the text that neither begins nor ends with white space, and what is gone is white
/// space.
pub proof fn law_trimming_takes_only_white_space(s: Seq<char>)
    ensures
        exists|from: int, to: int|
            {
                &&& 0 <= from <= to <= s.len()
                &&& trimmed(s) == #[trigger] s.subrange(from, to)
                &&& forall|i: int| 0 <= i < from ==> is_space(#[trigger] s[i])
                &&& forall|i: int| to <= i < s.len() ==> is_space(#[trigger] s[i])
            },
        trimmed(s).len() > 0 ==> !is_space(trimmed(s)[0]) && !is_space(trimmed(s).last()),
{
    let from = lemma_trimmed_start(s);
    let rest = s.skip(from);
    let len = lemma_trimmed_end(rest);
    let to = from + len;
    assert(rest.take(len) =~= s.subrange(from, to));
    assert forall|i: int| to <= i < s.len() implies is_space(#[trigger] s[i]) by {
        assert(rest[i - from] == s[i]);
    }
    if len > 0 {
        assert(trimmed(s)[0] == s[from]);
        assert(trimmed(s).last() == rest[len - 1]);
    }
    assert(trimmed(s) == s.subrange(from, to));
}

/// The number that digits stand for grows as in writing: another digit makes it ten times as large,
/// and adds itself.
pub proof fn law_digits_are_read_in_tens(s: Seq<char>, c: char)
    ensures
        digits_value(Seq::empty()) == 0,
        0x30 <= c as int <= 0x39 ==> digits_value(s.push(c)) == 10 * digits_value(s) + (c as int
            - 0x30),
        is_digit(c) <==> 0x30 <= c as int <= 0x39,
        all_digits(s.push(c)) <==> all_digits(s) && is_digit(c),
        all_digits(Seq::<char>::empty()),
{
    assert(s.push(c).drop_last() =~= s);
    if all_digits(s.push(c)) {
        assert forall|i: int| 0 <= i < s.len() implies is_digit(#[trigger] s[i]) by {
            assert(s.push(c)[i] == s[i]);
        }
        assert(s.push(c)[s.len() as int] == c);
    }
}

/// A number is written in digits that stand for it, without a leading zero.
pub proof fn law_decimal_writes_the_number(n: nat)
    ensures
        decimal(n).len() > 0,
        all_digits(decimal(n)),
        digits_value(decimal(n)) == n,
        decimal(n)[0] == '0' ==> decimal(n).len() == 1,
    decreases n,
{
    let last = digit((n % 10) as int);
    if n >= 10 {
        law_decimal_writes_the_number(n / 10);
        law_digits_are_read_in_tens(decimal(n / 10), last);
        assert(decimal(n)[0] == decimal(n / 10)[0]);
        if decimal(n / 10)[0] == '0' {
            let short = decimal(n / 10);
            assert(short =~= Seq::empty().push('0'));
            law_digits_are_read_in_tens(Seq::empty(), '0');
        }
    } else {
        law_digits_are_read_in_tens(Seq::empty(), last);
        assert(decimal(n) =~= Seq::empty().push(last));
    }
}

/// A text is read as a number exactly where it is made of digits, with or without a plus sign
/// before them, and the number is not too large; a number that was written is read back.
pub proof fn law_numbers_are_read_back(s: Seq<char>, n: nat, max: nat)
    ensures
        s.len() > 0 && all_digits(s) && digits_value(s) <= max ==> {
            &&& parsed_unsigned(s, max) == Some(digits_value(s))
            &&& parsed_unsigned(seq!['+'] + s, max) == Some(digits_value(s))
        },
        s.len() > 0 && s[0] != '+' && !all_digits(s) ==> {
            &&& parsed_unsigned(s, max) is None
            &&& parsed_unsigned(seq!['+'] + s, max) is None
        },
        all_digits(s) && digits_value(s) > max ==> {
            &&& parsed_unsigned(s, max) is None
            &&& parsed_unsigned(seq!['+'] + s, max) is None
        },
        s.len() == 0 ==> {
            &&& parsed_unsigned(s, max) is None
            &&& parsed_unsigned(seq!['+'] + s, max) is None
        },
        s.len() > 0 && s[0] == '+' ==> parsed_unsigned(seq!['+'] + s, max) is None,
        parsed_unsigned(decimal(n), max) == (if n <= max {
            Some(n)
        } else {
            None
        }),
{
    let signed = seq!['+'] + s;
    assert(signed.skip(1) =~= s);
    if s.len() > 0 && all_digits(s) {
        assert(is_digit(s[0]));
    }
    if s.len() > 0 && s[0] == '+' {
        assert(!is_digit(s[0]));
    }
    law_decimal_writes_the_number(n);
    assert(is_digit(decimal(n)[0]));
}

} // verus!
