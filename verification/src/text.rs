//! Text: decimal numbers, first lines, trimming, and the step from bytes to characters.
use vstd::prelude::*;
use vstd::string::*;
use vstd::utf8::{decode_utf8, valid_utf8};

verus! {

// ---------------------------------------------------------------------------
// Decimal numbers
// ---------------------------------------------------------------------------
/// The character that writes the digit `d`.
pub open spec fn digit_char(d: nat) -> char {
    (48 + d) as char
}

/// Is `c` one of the ten ASCII digits?
pub open spec fn is_digit(c: char) -> bool {
    48 <= c as int <= 57
}

/// The number that a digit stands for.
pub open spec fn digit_value(c: char) -> nat {
    (c as int - 48) as nat
}

/// `n` written in base ten, without leading zeros.
pub open spec fn decimal(n: nat) -> Seq<char>
    decreases n,
{
    if n < 10 {
        seq![digit_char(n)]
    } else {
        decimal(n / 10).push(digit_char(n % 10))
    }
}

/// Is `s` a non-empty run of digits?
pub open spec fn is_number(s: Seq<char>) -> bool {
    &&& s.len() > 0
    &&& forall|i: int| 0 <= i < s.len() ==> is_digit(#[trigger] s[i])
}

/// The number that a run of digits stands for in base ten.
pub open spec fn number_value(s: Seq<char>) -> nat
    decreases s.len(),
{
    if s.len() == 0 {
        0
    } else {
        10 * number_value(s.drop_last()) + digit_value(s.last())
    }
}

/// The decimal notation of a number is a run of digits that stands for that number.
pub proof fn lemma_decimal_value(n: nat)
    ensures
        is_number(decimal(n)),
        number_value(decimal(n)) == n,
    decreases n,
{
    let s = decimal(n);
    if n < 10 {
        assert(s.drop_last() =~= Seq::<char>::empty());
        assert(number_value(s.drop_last()) == 0);
    } else {
        lemma_decimal_value(n / 10);
        assert(s.drop_last() =~= decimal(n / 10));
    }
}

/// Two numbers with the same decimal notation are the same number.
pub proof fn lemma_decimal_injective(a: nat, b: nat)
    requires
        decimal(a) == decimal(b),
    ensures
        a == b,
{
    lemma_decimal_value(a);
    lemma_decimal_value(b);
}

fn digit(d: u128) -> (s: &'static str)
    requires
        d < 10,
    ensures
        s@ == seq![digit_char(d as nat)],
{
    proof {
        reveal_strlit("0");
        reveal_strlit("1");
        reveal_strlit("2");
        reveal_strlit("3");
        reveal_strlit("4");
        reveal_strlit("5");
        reveal_strlit("6");
        reveal_strlit("7");
        reveal_strlit("8");
        reveal_strlit("9");
    }
    if d == 0 {
        "0"
    } else if d == 1 {
        "1"
    } else if d == 2 {
        "2"
    } else if d == 3 {
        "3"
    } else if d == 4 {
        "4"
    } else if d == 5 {
        "5"
    } else if d == 6 {
        "6"
    } else if d == 7 {
        "7"
    } else if d == 8 {
        "8"
    } else {
        "9"
    }
}

/// Writes `n` in base ten.
pub fn to_decimal(n: u128) -> (s: String)
    ensures
        s@ == decimal(n as nat),
    decreases n,
{
    if n < 10 {
        digit(n).to_string()
    } else {
        let mut s = to_decimal(n / 10);
        s.append(digit(n % 10));
        s
    }
}

// ---------------------------------------------------------------------------
// Lines and white space
// ---------------------------------------------------------------------------
/// The position of the first line feed in `text`, or its length where it has none.
pub open spec fn line_end(text: Seq<char>) -> int
    decreases text.len(),
{
    if text.len() == 0 || text[0] == '\n' {
        0
    } else {
        1 + line_end(text.drop_first())
    }
}

/// The first line of `text`, without the line feed, or the carriage return and line feed,
/// that ends it. Empty text has no line at all.
pub open spec fn first_line(text: Seq<char>) -> Option<Seq<char>> {
    let n = line_end(text);
    if text.len() == 0 {
        None
    } else if 0 < n < text.len() && text[n - 1] == '\r' {
        Some(text.take(n - 1))
    } else {
        Some(text.take(n))
    }
}

/// Does `c` have the Unicode property `White_Space`?
pub open spec fn is_whitespace(c: char) -> bool {
    let n = c as u32;
    ||| 0x9 <= n <= 0xd
    ||| n == 0x20
    ||| n == 0x85
    ||| n == 0xa0
    ||| n == 0x1680
    ||| 0x2000 <= n <= 0x200a
    ||| n == 0x2028
    ||| n == 0x2029
    ||| n == 0x202f
    ||| n == 0x205f
    ||| n == 0x3000
}

/// `s` without its leading white space.
pub open spec fn trim_start(s: Seq<char>) -> Seq<char>
    decreases s.len(),
{
    if s.len() > 0 && is_whitespace(s[0]) {
        trim_start(s.drop_first())
    } else {
        s
    }
}

/// `s` without its trailing white space.
pub open spec fn trim_end(s: Seq<char>) -> Seq<char>
    decreases s.len(),
{
    if s.len() > 0 && is_whitespace(s.last()) {
        trim_end(s.drop_last())
    } else {
        s
    }
}

/// `s` without the white space at both its ends.
pub open spec fn trimmed(s: Seq<char>) -> Seq<char> {
    trim_end(trim_start(s))
}

proof fn lemma_line_end(text: Seq<char>, n: int)
    requires
        0 <= n <= text.len(),
        forall|i: int| 0 <= i < n ==> text[i] != '\n',
        n < text.len() ==> text[n] == '\n',
    ensures
        line_end(text) == n,
    decreases text.len(),
{
    if n > 0 {
        lemma_line_end(text.drop_first(), n - 1);
    }
}

proof fn lemma_trim_start(s: Seq<char>, n: int)
    requires
        0 <= n <= s.len(),
        forall|i: int| 0 <= i < n ==> is_whitespace(#[trigger] s[i]),
        n < s.len() ==> !is_whitespace(s[n]),
    ensures
        trim_start(s) == s.skip(n),
    decreases s.len(),
{
    if n > 0 {
        let rest = s.drop_first();
        assert forall|i: int| 0 <= i < n - 1 implies is_whitespace(#[trigger] rest[i]) by {
            assert(rest[i] == s[i + 1]);
        }
        lemma_trim_start(rest, n - 1);
        assert(rest.skip(n - 1) =~= s.skip(n));
    } else {
        assert(s.skip(0) =~= s);
    }
}

proof fn lemma_trim_end(s: Seq<char>, n: int)
    requires
        0 <= n <= s.len(),
        forall|i: int| n <= i < s.len() ==> is_whitespace(#[trigger] s[i]),
        n > 0 ==> !is_whitespace(s[n - 1]),
    ensures
        trim_end(s) == s.take(n),
    decreases s.len(),
{
    if n < s.len() {
        lemma_trim_end(s.drop_last(), n);
        assert(s.drop_last().take(n) =~= s.take(n));
    } else {
        assert(s.take(n) =~= s);
    }
}

/// Is `s` a word: not empty, and without white space in it?
pub open spec fn is_word(s: Seq<char>) -> bool {
    &&& s.len() > 0
    &&& forall|i: int| 0 <= i < s.len() ==> !is_whitespace(#[trigger] s[i])
}

/// A word on a line of its own is the first line, and trimming it changes nothing.
pub proof fn lemma_word_line(s: Seq<char>)
    requires
        is_word(s),
    ensures
        first_line(s.push('\n')) == Some(s),
        trimmed(s) == s,
{
    let text = s.push('\n');
    assert forall|i: int| 0 <= i < s.len() implies text[i] != '\n' by {
        assert(!is_whitespace(s[i]));
    }
    lemma_line_end(text, s.len() as int);
    assert(!is_whitespace(s[s.len() - 1]));
    assert(text.take(s.len() as int) =~= s);
    lemma_trim_start(s, 0);
    assert(s.skip(0) =~= s);
    lemma_trim_end(s, s.len() as int);
    assert(s.take(s.len() as int) =~= s);
}

fn chars_of(s: &str) -> (v: Vec<char>)
    ensures
        v@ == s@,
{
    let mut v: Vec<char> = Vec::new();
    for c in it: s.chars()
        invariant
            v@ == it.seq().take(it.index() as int),
            it.seq() == s@,
    {
        v.push(c);
    }
    v
}

fn code_point(c: char) -> (n: u32)
    ensures
        n == c as int,
{
    c as u32
}

fn whitespace(c: char) -> (b: bool)
    ensures
        b == is_whitespace(c),
{
    let n: u32 = c as u32;
    (0x9 <= n && n <= 0xd) || n == 0x20 || n == 0x85 || n == 0xa0 || n == 0x1680 || (0x2000 <= n
        && n <= 0x200a) || n == 0x2028 || n == 0x2029 || n == 0x202f || n == 0x205f || n == 0x3000
}

/// The first line of `text`, if it has one.
pub fn get_first_line(text: &str) -> (line: Option<&str>)
    ensures
        match line {
            Some(l) => first_line(text@) == Some(l@),
            None => first_line(text@) is None,
        },
{
    let chars = chars_of(text);
    if chars.len() == 0 {
        return None;
    }
    let mut n: usize = 0;
    while n < chars.len() && chars[n] != '\n'
        invariant
            n <= chars.len(),
            forall|i: int| 0 <= i < n ==> chars@[i] != '\n',
        decreases chars.len() - n,
    {
        n = n + 1;
    }
    proof {
        lemma_line_end(text@, n as int);
    }
    if 0 < n && n < chars.len() && chars[n - 1] == '\r' {
        Some(text.substring_char(0, n - 1))
    } else {
        Some(text.substring_char(0, n))
    }
}

/// `s` without the white space at both its ends.
pub fn trim(s: &str) -> (t: &str)
    ensures
        t@ == trimmed(s@),
{
    let chars = chars_of(s);
    let mut from: usize = 0;
    while from < chars.len() && whitespace(chars[from])
        invariant
            from <= chars.len(),
            forall|i: int| 0 <= i < from ==> is_whitespace(#[trigger] chars@[i]),
        decreases chars.len() - from,
    {
        from = from + 1;
    }
    let mut to: usize = chars.len();
    while from < to && whitespace(chars[to - 1])
        invariant
            from <= to <= chars.len(),
            forall|i: int| to <= i < chars.len() ==> is_whitespace(#[trigger] chars@[i]),
        decreases to,
    {
        to = to - 1;
    }
    proof {
        lemma_trim_start(s@, from as int);
        let rest = s@.skip(from as int);
        assert forall|i: int| to - from <= i < rest.len() implies is_whitespace(
            #[trigger] rest[i],
        ) by {
            assert(rest[i] == s@[i + from]);
        }
        lemma_trim_end(rest, to - from);
        assert(rest.take(to - from) =~= s@.subrange(from as int, to as int));
    }
    s.substring_char(from, to)
}

// ---------------------------------------------------------------------------
// Reading numbers
// ---------------------------------------------------------------------------
/// The digits of a signed number: what is left of it behind its sign.
pub open spec fn unsigned_part(s: Seq<char>) -> Seq<char> {
    if s.len() > 0 && (s[0] == '-' || s[0] == '+') {
        s.drop_first()
    } else {
        s
    }
}

/// The number that `s` stands for, if it is a run of digits, perhaps behind a sign.
pub open spec fn signed_value(s: Seq<char>) -> Option<int> {
    let digits = unsigned_part(s);
    if !is_number(digits) {
        None
    } else if s[0] == '-' {
        Some(-(number_value(digits) as int))
    } else {
        Some(number_value(digits) as int)
    }
}

/// The `i32` that `s` stands for, if it is a number and an `i32` can hold it.
pub open spec fn i32_value(s: Seq<char>) -> Option<i32> {
    match signed_value(s) {
        Some(n) if i32::MIN <= n <= i32::MAX => Some(n as i32),
        _ => None,
    }
}

/// The `u32` that `s` stands for, if it is a run of digits, perhaps behind a plus sign, and a
/// `u32` can hold its number.
pub open spec fn u32_value(s: Seq<char>) -> Option<u32> {
    let digits = if s.len() > 0 && s[0] == '+' {
        s.drop_first()
    } else {
        s
    };
    if is_number(digits) && number_value(digits) <= u32::MAX {
        Some(number_value(digits) as u32)
    } else {
        None
    }
}

/// `n` written in base ten, behind a minus sign where it is negative.
pub open spec fn signed_decimal(n: int) -> Seq<char> {
    if n < 0 {
        seq!['-'] + decimal((-n) as nat)
    } else {
        decimal(n as nat)
    }
}

/// The decimal notation of an `i32` is a word that stands for it.
pub proof fn lemma_signed_decimal(n: i32)
    ensures
        is_word(signed_decimal(n as int)),
        i32_value(signed_decimal(n as int)) == Some(n),
{
    let s = signed_decimal(n as int);
    let size = if n < 0 {
        -n
    } else {
        n as int
    } as nat;
    let digits = decimal(size);
    lemma_decimal_value(size);
    assert forall|i: int| 0 <= i < s.len() implies !is_whitespace(#[trigger] s[i]) by {
        if n < 0 {
            assert(i > 0 ==> s[i] == digits[i - 1]);
        } else {
            assert(s[i] == digits[i]);
        }
    }
    if n < 0 {
        assert(s.drop_first() =~= digits);
    } else {
        assert(is_digit(s[0]));
    }
    assert(unsigned_part(s) == digits);
}

/// The decimal notation of a `u32` is a word that stands for it.
pub proof fn lemma_unsigned_decimal(n: u32)
    ensures
        is_word(decimal(n as nat)),
        u32_value(decimal(n as nat)) == Some(n),
{
    let s = decimal(n as nat);
    lemma_decimal_value(n as nat);
    assert forall|i: int| 0 <= i < s.len() implies !is_whitespace(#[trigger] s[i]) by {
        assert(is_digit(s[i]));
    }
    assert(is_digit(s[0]));
}

proof fn lemma_number_value_monotone(s: Seq<char>, n: int)
    requires
        0 <= n <= s.len(),
    ensures
        number_value(s.take(n)) <= number_value(s),
    decreases s.len(),
{
    if n < s.len() {
        lemma_number_value_monotone(s.drop_last(), n);
        assert(s.drop_last().take(n) =~= s.take(n));
    } else {
        assert(s.take(n) =~= s);
    }
}

/// Reads the digits of `chars` from `start` on, where they make a number of at most `limit`.
fn parse_digits(chars: &Vec<char>, start: usize, limit: u32) -> (n: Option<u32>)
    requires
        start <= chars.len(),
    ensures
        ({
            let digits = chars@.skip(start as int);
            n == if is_number(digits) && number_value(digits) <= limit {
                Some(number_value(digits) as u32)
            } else {
                None
            }
        }),
{
    let ghost digits = chars@.skip(start as int);
    if start == chars.len() {
        return None;
    }
    let mut value: u64 = 0;
    let mut i: usize = start;
    assert(digits.take(0) =~= Seq::<char>::empty());
    while i < chars.len()
        invariant
            start <= i <= chars.len(),
            digits == chars@.skip(start as int),
            forall|j: int| 0 <= j < i - start ==> is_digit(#[trigger] digits[j]),
            value == number_value(digits.take(i - start)),
            value <= limit,
        decreases chars.len() - i,
    {
        let code: u32 = code_point(chars[i]);
        assert(digits[i - start] == chars@[i as int]);
        if code < 48 || 57 < code {
            return None;
        }
        proof {
            let next = digits.take(i - start + 1);
            assert(next.drop_last() =~= digits.take(i - start));
        }
        value = 10 * value + (code - 48) as u64;
        if value > limit as u64 {
            proof {
                lemma_number_value_monotone(digits, i - start + 1);
            }
            return None;
        }
        i = i + 1;
    }
    assert(digits.take(i - start) =~= digits);
    Some(value as u32)
}

/// Reads an `i32` in base ten.
pub fn parse_i32(s: &str) -> (n: Option<i32>)
    ensures
        n == i32_value(s@),
{
    let chars = chars_of(s);
    if chars.len() == 0 {
        return None;
    }
    let negative: bool = chars[0] == '-';
    let start: usize = if negative || chars[0] == '+' {
        1
    } else {
        0
    };
    let limit: u32 = if negative {
        0x8000_0000
    } else {
        0x7fff_ffff
    };
    assert(unsigned_part(s@) =~= s@.skip(start as int));
    match parse_digits(&chars, start, limit) {
        Some(size) => if negative {
            Some((-(size as i64)) as i32)
        } else {
            Some(size as i32)
        },
        None => None,
    }
}

/// Reads a `u32` in base ten.
pub fn parse_u32(s: &str) -> (n: Option<u32>)
    ensures
        n == u32_value(s@),
{
    let chars = chars_of(s);
    let start: usize = if chars.len() > 0 && chars[0] == '+' {
        1
    } else {
        0
    };
    let ghost digits = if s@.len() > 0 && s@[0] == '+' {
        s@.drop_first()
    } else {
        s@
    };
    assert(digits =~= s@.skip(start as int));
    parse_digits(&chars, start, u32::MAX)
}

// ---------------------------------------------------------------------------
// What reading and writing come to
// ---------------------------------------------------------------------------
/// The digits are the characters from `0` to `9`, each stands for its distance from `0`, and one
/// more digit behind a number makes it ten times as large, plus that digit.
pub proof fn digits_make_numbers(s: Seq<char>, c: char)
    ensures
        is_digit(c) <==> '0' <= c <= '9',
        is_digit(c) ==> digit_value(c) == c as int - '0' as int,
        number_value(Seq::empty()) == 0,
        number_value(s.push(c)) == 10 * number_value(s) + digit_value(c),
        is_number(s.push(c)) <==> is_digit(c) && (s.len() == 0 || is_number(s)),
{
    let t = s.push(c);
    assert(t.drop_last() =~= s);
    if is_number(t) {
        assert(is_digit(t[t.len() - 1]));
        assert forall|i: int| 0 <= i < s.len() implies is_digit(#[trigger] s[i]) by {
            assert(is_digit(t[i]));
        }
    }
}

/// A number is written as its digits, and without leading zeros: only zero starts with one.
pub proof fn decimal_has_no_leading_zero(n: nat)
    ensures
        is_number(decimal(n)),
        number_value(decimal(n)) == n,
        decimal(n)[0] == '0' ==> n == 0,
        n == 0 ==> decimal(n) == seq!['0'],
    decreases n,
{
    lemma_decimal_value(n);
    if n >= 10 {
        decimal_has_no_leading_zero(n / 10);
    }
}

/// White space are the characters that Unicode counts as such: those from tab to carriage return,
/// the space, and the separators beyond ASCII.
pub proof fn white_space_of_unicode(c: char)
    ensures
        '\t' <= c <= '\r' || c == ' ' ==> is_whitespace(c),
        c == '\u{85}' || c == '\u{a0}' || c == '\u{1680}' ==> is_whitespace(c),
        '\u{2000}' <= c <= '\u{200a}' || c == '\u{2028}' || c == '\u{2029}' ==> is_whitespace(c),
        c == '\u{202f}' || c == '\u{205f}' || c == '\u{3000}' ==> is_whitespace(c),
        is_whitespace(c) && c < '\u{80}' ==> '\t' <= c <= '\r' || c == ' ',
        is_whitespace(c) && '\u{80}' <= c < '\u{2000}' ==> c == '\u{85}' || c == '\u{a0}' || c
            == '\u{1680}',
        is_whitespace(c) && '\u{2000}' <= c ==> c <= '\u{200a}' || c == '\u{2028}' || c
            == '\u{2029}' || c == '\u{202f}' || c == '\u{205f}' || c == '\u{3000}',
{
}

/// The first line of a text ends where its first line feed stands, and at its end where it has
/// none. A carriage return before that line feed belongs to the end of the line, not to the line.
pub proof fn first_line_ends_at_line_feed(line: Seq<char>, rest: Seq<char>)
    requires
        forall|i: int| 0 <= i < line.len() ==> line[i] != '\n',
    ensures
        first_line(Seq::empty()) is None,
        line.len() > 0 ==> first_line(line) == Some(line),
        line.len() == 0 || line.last() != '\r' ==> first_line(line.push('\n') + rest) == Some(line),
        first_line(line + seq!['\r', '\n'] + rest) == Some(line),
{
    if line.len() > 0 {
        lemma_line_end(line, line.len() as int);
        assert(line.take(line.len() as int) =~= line);
    }
    let lf = line.push('\n') + rest;
    lemma_line_end(lf, line.len() as int);
    assert(lf.take(line.len() as int) =~= line);
    let crlf = line + seq!['\r', '\n'] + rest;
    assert forall|i: int| 0 <= i < line.len() + 1 implies crlf[i] != '\n' by {
        if i < line.len() {
            assert(crlf[i] == line[i]);
        }
    }
    lemma_line_end(crlf, line.len() as int + 1);
    assert(crlf.take(line.len() as int) =~= line);
}

/// Trimming takes away all the white space around a text and nothing else.
pub proof fn trimming_leaves_the_core(before: Seq<char>, core: Seq<char>, after: Seq<char>)
    requires
        forall|i: int| 0 <= i < before.len() ==> is_whitespace(#[trigger] before[i]),
        forall|i: int| 0 <= i < after.len() ==> is_whitespace(#[trigger] after[i]),
        core.len() > 0 ==> !is_whitespace(core[0]) && !is_whitespace(core[core.len() - 1]),
    ensures
        trimmed(before + core + after) == core,
{
    let s = before + core + after;
    let n = before.len() as int;
    if core.len() > 0 {
        assert forall|i: int| 0 <= i < n implies is_whitespace(#[trigger] s[i]) by {
            assert(s[i] == before[i]);
        }
        assert(s[n] == core[0]);
        lemma_trim_start(s, n);
        let rest = s.skip(n);
        assert(rest =~= core + after);
        assert forall|i: int| core.len() <= i < rest.len() implies is_whitespace(
            #[trigger] rest[i],
        ) by {
            assert(rest[i] == after[i - core.len()]);
        }
        lemma_trim_end(rest, core.len() as int);
        assert(rest.take(core.len() as int) =~= core);
    } else {
        assert forall|i: int| 0 <= i < s.len() implies is_whitespace(#[trigger] s[i]) by {
            if i < n {
                assert(s[i] == before[i]);
            } else {
                assert(s[i] == after[i - n]);
            }
        }
        lemma_trim_start(s, s.len() as int);
        assert(s.skip(s.len() as int) =~= Seq::<char>::empty());
        assert(core =~= Seq::<char>::empty());
    }
}

/// A run of digits is read as its number, and as the negative of that behind a minus sign, as far
/// as an `i32` goes.
pub proof fn signed_numbers_are_read(digits: Seq<char>)
    requires
        is_number(digits),
    ensures
        ({
            let n = number_value(digits) as int;
            &&& n <= 0x7fff_ffff ==> i32_value(digits) == Some(n as i32)
            &&& n <= 0x7fff_ffff ==> i32_value(seq!['+'] + digits) == Some(n as i32)
            &&& n <= 0x8000_0000 ==> i32_value(seq!['-'] + digits) == Some((-n) as i32)
            &&& n > 0x7fff_ffff ==> i32_value(digits) is None
            &&& n > 0x7fff_ffff ==> i32_value(seq!['+'] + digits) is None
            &&& n > 0x8000_0000 ==> i32_value(seq!['-'] + digits) is None
        }),
{
    assert(is_digit(digits[0]));
    assert((seq!['+'] + digits).drop_first() =~= digits);
    assert((seq!['-'] + digits).drop_first() =~= digits);
}

/// Nothing but a run of digits, alone or behind one sign, is read as an `i32`.
pub proof fn only_signed_numbers_are_read(s: Seq<char>)
    requires
        i32_value(s) is Some,
    ensures
        is_number(s) || (s.len() > 0 && (s[0] == '-' || s[0] == '+') && is_number(s.drop_first())),
{
}

/// A run of digits, alone or behind a plus sign, is read as its number, as far as a `u32` goes.
pub proof fn unsigned_numbers_are_read(digits: Seq<char>)
    requires
        is_number(digits),
    ensures
        ({
            let n = number_value(digits) as int;
            &&& n <= 0xffff_ffff ==> u32_value(digits) == Some(n as u32)
            &&& n <= 0xffff_ffff ==> u32_value(seq!['+'] + digits) == Some(n as u32)
            &&& n > 0xffff_ffff ==> u32_value(digits) is None
            &&& n > 0xffff_ffff ==> u32_value(seq!['+'] + digits) is None
        }),
{
    assert(is_digit(digits[0]));
    assert((seq!['+'] + digits).drop_first() =~= digits);
}

/// Nothing but a run of digits, alone or behind a plus sign, is read as a `u32`.
pub proof fn only_unsigned_numbers_are_read(s: Seq<char>)
    requires
        u32_value(s) is Some,
    ensures
        is_number(s) || (s.len() > 0 && s[0] == '+' && is_number(s.drop_first())),
{
}

// ---------------------------------------------------------------------------
// Bytes
// ---------------------------------------------------------------------------
/// What `String::from_utf8_lossy` makes of `bytes`.
pub uninterp spec fn utf8_lossy(bytes: Seq<u8>) -> Seq<char>;

/// Does the lossy text of `bytes` agree with what they encode? Where all of them are valid UTF-8
/// it is what they encode, and it is empty only where there are no bytes.
pub open spec fn lossy_agrees(bytes: Seq<u8>) -> bool {
    &&& valid_utf8(bytes) ==> utf8_lossy(bytes) == decode_utf8(bytes)
    &&& utf8_lossy(bytes).len() == 0 <==> bytes.len() == 0
}

/// Calls `String::from_utf8_lossy`: the characters that `bytes` encode in UTF-8, with U+FFFD in
/// the place of what is not UTF-8. The text depends on the bytes alone. Where all of them are
/// valid UTF-8 it is what they encode, and it is empty only where there are no bytes.
#[verifier::external_body]
pub(crate) fn from_utf8_lossy(bytes: &[u8]) -> (text: String)
    ensures
        text@ == utf8_lossy(bytes@),
        valid_utf8(bytes@) ==> text@ == decode_utf8(bytes@),
        text@.len() == 0 <==> bytes@.len() == 0,
{
    String::from_utf8_lossy(bytes).into_owned()
}

/// `String::from_utf8`: succeeds on valid UTF-8 alone, and then returns the characters that the
/// bytes encode.
pub assume_specification[ std::string::String::from_utf8 ](vec: std::vec::Vec<u8>) -> (res:
    std::result::Result<std::string::String, std::string::FromUtf8Error>)
    ensures
        match res {
            Ok(s) => valid_utf8(vec@) && s@ == decode_utf8(vec@),
            Err(_) => !valid_utf8(vec@),
        },
;

} // verus!
