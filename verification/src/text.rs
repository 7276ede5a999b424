//! Small text utilities shared by the lexer, the syntax tree printer and the
//! diagnostics: building strings character by character and decimal numerals.

use vstd::prelude::*;
use vstd::string::*;

verus! {

/// Appends one character to a string.
///
/// Trusted: wraps `String::push`, which appends the given `char` to the end of
/// the string and changes nothing else.
#[verifier::external_body]
pub(crate) fn push_char(s: &mut String, c: char)
    ensures
        final(s)@ == old(s)@.push(c),
{
    s.push(c)
}

/// The decimal digit character for a value below ten.
pub open spec fn spec_digit_char(d: nat) -> char {
    if d == 0 {
        '0'
    } else if d == 1 {
        '1'
    } else if d == 2 {
        '2'
    } else if d == 3 {
        '3'
    } else if d == 4 {
        '4'
    } else if d == 5 {
        '5'
    } else if d == 6 {
        '6'
    } else if d == 7 {
        '7'
    } else if d == 8 {
        '8'
    } else {
        '9'
    }
}

/// The value of a decimal digit character, if it is one.
pub open spec fn spec_digit_value(c: char) -> Option<nat> {
    if c == '0' {
        Some(0nat)
    } else if c == '1' {
        Some(1nat)
    } else if c == '2' {
        Some(2nat)
    } else if c == '3' {
        Some(3nat)
    } else if c == '4' {
        Some(4nat)
    } else if c == '5' {
        Some(5nat)
    } else if c == '6' {
        Some(6nat)
    } else if c == '7' {
        Some(7nat)
    } else if c == '8' {
        Some(8nat)
    } else if c == '9' {
        Some(9nat)
    } else {
        None
    }
}

/// Whether a character is one of `0`..`9`.
pub open spec fn spec_is_digit(c: char) -> bool {
    spec_digit_value(c) is Some
}

/// Whether a character is an ASCII letter.
pub open spec fn spec_is_letter(c: char) -> bool {
    ('a' <= c && c <= 'z') || ('A' <= c && c <= 'Z')
}

/// The decimal numeral of a natural number, without leading zeros.
pub open spec fn spec_decimal(n: nat) -> Seq<char>
    decreases n,
{
    if n < 10 {
        seq![spec_digit_char(n)]
    } else {
        spec_decimal(n / 10).push(spec_digit_char(n % 10))
    }
}

/// The decimal numeral of an integer, with a leading `-` when negative.
pub open spec fn spec_signed_decimal(n: int) -> Seq<char> {
    if n < 0 {
        seq!['-'] + spec_decimal((-n) as nat)
    } else {
        spec_decimal(n as nat)
    }
}

/// The number that a sequence of decimal digits denotes; characters that are
/// no digits count as zero.
pub open spec fn spec_digits_value(s: Seq<char>) -> nat
    decreases s.len(),
{
    if s.len() == 0 {
        0
    } else {
        let d = match spec_digit_value(s.last()) {
            Some(v) => v,
            None => 0nat,
        };
        spec_digits_value(s.drop_last()) * 10 + d
    }
}

/// Whether every character of the sequence is a decimal digit.
pub open spec fn spec_all_digits(s: Seq<char>) -> bool {
    forall|i: int| 0 <= i < s.len() ==> spec_is_digit(#[trigger] s[i])
}

/// What reading a decimal numeral as a 64-bit signed integer gives: the
/// number, when the text is a non-empty run of digits whose value fits.
pub open spec fn spec_parse_decimal(s: Seq<char>) -> Option<i64> {
    if s.len() > 0 && spec_all_digits(s) && spec_digits_value(s) <= i64::MAX {
        Some(spec_digits_value(s) as i64)
    } else {
        None
    }
}

/// `count` copies of one character.
pub open spec fn spec_repeat(c: char, count: nat) -> Seq<char> {
    Seq::new(count, |i: int| c)
}

/// The sequences joined into one, with `sep` between neighbours.
pub open spec fn spec_join(parts: Seq<Seq<char>>, sep: Seq<char>) -> Seq<char>
    decreases parts.len(),
{
    if parts.len() == 0 {
        Seq::empty()
    } else if parts.len() == 1 {
        parts[0]
    } else {
        spec_join(parts.drop_last(), sep) + sep + parts.last()
    }
}

/// The decimal digit character for a value below ten.
pub fn digit_char(d: u8) -> (c: char)
    requires
        d < 10,
    ensures
        c == spec_digit_char(d as nat),
{
    if d == 0 {
        '0'
    } else if d == 1 {
        '1'
    } else if d == 2 {
        '2'
    } else if d == 3 {
        '3'
    } else if d == 4 {
        '4'
    } else if d == 5 {
        '5'
    } else if d == 6 {
        '6'
    } else if d == 7 {
        '7'
    } else if d == 8 {
        '8'
    } else {
        '9'
    }
}

/// The value of a decimal digit character, if it is one.
pub fn digit_value(c: char) -> (r: Option<u8>)
    ensures
        match r {
            Some(v) => spec_digit_value(c) == Some(v as nat),
            None => spec_digit_value(c) is None,
        },
{
    if c == '0' {
        Some(0u8)
    } else if c == '1' {
        Some(1u8)
    } else if c == '2' {
        Some(2u8)
    } else if c == '3' {
        Some(3u8)
    } else if c == '4' {
        Some(4u8)
    } else if c == '5' {
        Some(5u8)
    } else if c == '6' {
        Some(6u8)
    } else if c == '7' {
        Some(7u8)
    } else if c == '8' {
        Some(8u8)
    } else if c == '9' {
        Some(9u8)
    } else {
        None
    }
}

/// Whether a character is one of `0`..`9`.
pub fn is_digit(c: char) -> (r: bool)
    ensures
        r == spec_is_digit(c),
{
    '0' <= c && c <= '9'
}

/// Whether a character is an ASCII letter.
pub fn is_letter(c: char) -> (r: bool)
    ensures
        r == spec_is_letter(c),
{
    ('a' <= c && c <= 'z') || ('A' <= c && c <= 'Z')
}

/// Whether two string slices hold the same text.
pub fn str_equals(a: &str, b: &str) -> (r: bool)
    ensures
        r == (a@ == b@),
{
    let x = String::from_str(a);
    let y = String::from_str(b);
    x == y
}

/// The characters of a string slice, in order.
pub fn chars_of(s: &str) -> (v: Vec<char>)
    ensures
        v@ == s@,
{
    let n = s.unicode_len();
    let mut v: Vec<char> = Vec::new();
    let mut i: usize = 0;
    while i < n
        invariant
            n == s@.len(),
            i <= n,
            v@ == s@.subrange(0, i as int),
        decreases n - i,
    {
        let c = s.get_char(i);
        v.push(c);
        i = i + 1;
        assert(v@ =~= s@.subrange(0, i as int));
    }
    assert(s@.subrange(0, n as int) =~= s@);
    v
}

/// The text made of `chars[from..to]`.
pub fn string_from_chars(chars: &Vec<char>, from: usize, to: usize) -> (s: String)
    requires
        from <= to <= chars@.len(),
    ensures
        s@ == chars@.subrange(from as int, to as int),
{
    let mut s = String::new();
    let mut i: usize = from;
    while i < to
        invariant
            from <= i <= to <= chars@.len(),
            s@ == chars@.subrange(from as int, i as int),
        decreases to - i,
    {
        push_char(&mut s, chars[i]);
        i = i + 1;
        assert(s@ =~= chars@.subrange(from as int, i as int));
    }
    s
}

/// `count` copies of one character.
pub fn repeat_char(c: char, count: usize) -> (s: String)
    ensures
        s@ == spec_repeat(c, count as nat),
{
    let mut s = String::new();
    let mut i: usize = 0;
    while i < count
        invariant
            i <= count,
            s@ == spec_repeat(c, i as nat),
        decreases count - i,
    {
        push_char(&mut s, c);
        i = i + 1;
        assert(s@ =~= spec_repeat(c, i as nat));
    }
    s
}

/// The decimal numeral of an unsigned number.
pub fn decimal(n: u64) -> (s: String)
    ensures
        s@ == spec_decimal(n as nat),
    decreases n,
{
    if n < 10 {
        let mut s = String::new();
        push_char(&mut s, digit_char(n as u8));
        assert(s@ =~= seq![spec_digit_char(n as nat)]);
        s
    } else {
        let mut s = decimal(n / 10);
        push_char(&mut s, digit_char((n % 10) as u8));
        s
    }
}

/// The decimal numeral of a signed number.
pub fn signed_decimal(n: i64) -> (s: String)
    ensures
        s@ == spec_signed_decimal(n as int),
{
    if n < 0 {
        let magnitude: u64 = if n == i64::MIN {
            9223372036854775808u64
        } else {
            (-n) as u64
        };
        let mut s = String::new();
        push_char(&mut s, '-');
        let digits = decimal(magnitude);
        s.append(digits.as_str());
        assert(s@ =~= seq!['-'] + spec_decimal((-(n as int)) as nat));
        s
    } else {
        decimal(n as u64)
    }
}

/// Reads a decimal numeral as a 64-bit signed integer.
pub fn parse_decimal(text: &str) -> (r: Option<i64>)
    ensures
        r == spec_parse_decimal(text@),
{
    let chars = chars_of(text);
    let n = chars.len();
    if n == 0 {
        return None;
    }
    let mut value: u64 = 0;
    let mut i: usize = 0;
    while i < n
        invariant
            n == chars@.len(),
            chars@ == text@,
            i <= n,
            spec_all_digits(chars@.subrange(0, i as int)),
            value == spec_digits_value(chars@.subrange(0, i as int)),
            value <= i64::MAX,
        decreases n - i,
    {
        let ghost prefix = chars@.subrange(0, i as int);
        let ghost next = chars@.subrange(0, i + 1);
        proof {
            assert(next.drop_last() =~= prefix);
            assert(next.last() == chars@[i as int]);
        }
        match digit_value(chars[i]) {
            None => {
                proof {
                    assert(!spec_is_digit(text@[i as int]));
                }
                return None;
            },
            Some(d) => {
                if value > (9223372036854775807u64 - d as u64) / 10 {
                    proof {
                        assert(spec_digits_value(next) > i64::MAX);
                        lemma_digits_value_grows(chars@, i + 1);
                    }
                    return None;
                }
                value = value * 10 + d as u64;
                proof {
                    assert forall|k: int| 0 <= k < next.len() implies spec_is_digit(
                        #[trigger] next[k],
                    ) by {
                        if k < i {
                            assert(next[k] == prefix[k]);
                        }
                    }
                }
                i = i + 1;
            },
        }
    }
    proof {
        assert(chars@.subrange(0, n as int) =~= chars@);
    }
    Some(value as i64)
}

/// A longer run of digits never denotes a smaller number than its prefix.
pub proof fn lemma_digits_value_grows(s: Seq<char>, k: int)
    requires
        0 <= k <= s.len(),
    ensures
        spec_digits_value(s.subrange(0, k)) <= spec_digits_value(s),
    decreases s.len() - k,
{
    if k < s.len() {
        let shorter = s.subrange(0, k);
        let longer = s.subrange(0, k + 1);
        assert(longer.drop_last() =~= shorter);
        lemma_digits_value_grows(s, k + 1);
    } else {
        assert(s.subrange(0, k) =~= s);
    }
}


/// The text behind `count` copies of the character, where it is shorter
/// than `width`, the copies making up the difference; else the text.
pub open spec fn spec_padded_left(text: Seq<char>, c: char, width: nat) -> Seq<char> {
    if text.len() < width {
        spec_repeat(c, (width - text.len()) as nat) + text
    } else {
        text
    }
}

/// The text before copies of the character that bring it to `width`, where
/// it is shorter; else the text.
pub open spec fn spec_padded_right(text: Seq<char>, c: char, width: nat) -> Seq<char> {
    if text.len() < width {
        text + spec_repeat(c, (width - text.len()) as nat)
    } else {
        text
    }
}

/// The text, brought to `width` by copies of the character before it.
pub fn pad_left(text: &str, c: char, width: usize) -> (s: String)
    ensures
        s@ == spec_padded_left(text@, c, width as nat),
{
    let len = text.unicode_len();
    if len < width {
        let mut s = repeat_char(c, width - len);
        s.append(text);
        s
    } else {
        String::from_str(text)
    }
}

/// The text, brought to `width` by copies of the character behind it.
pub fn pad_right(text: &str, c: char, width: usize) -> (s: String)
    ensures
        s@ == spec_padded_right(text@, c, width as nat),
{
    let len = text.unicode_len();
    if len < width {
        let mut s = String::from_str(text);
        let padding = repeat_char(c, width - len);
        s.append(padding.as_str());
        s
    } else {
        String::from_str(text)
    }
}

/// The views of the strings, in order.
pub open spec fn spec_texts(v: Seq<String>) -> Seq<Seq<char>> {
    Seq::new(v.len(), |i: int| v[i]@)
}

/// The text of the first `i + 1` parts joined, from that of the first `i`.
pub proof fn lemma_join_step(parts: Seq<Seq<char>>, sep: Seq<char>, i: int)
    requires
        0 <= i < parts.len(),
    ensures
        spec_join(parts.subrange(0, i + 1), sep) == if i == 0 {
            parts[0]
        } else {
            spec_join(parts.subrange(0, i), sep) + sep + parts[i]
        },
{
    assert(parts.subrange(0, i + 1).drop_last() =~= parts.subrange(0, i));
}

/// The strings joined into one, with `sep` between neighbours.
pub fn join(parts: &Vec<String>, sep: &str) -> (s: String)
    ensures
        s@ == spec_join(spec_texts(parts@), sep@),
{
    let ghost views = spec_texts(parts@);
    let mut s = String::new();
    let mut i: usize = 0;
    while i < parts.len()
        invariant
            i <= parts.len(),
            views == spec_texts(parts@),
            s@ == spec_join(views.subrange(0, i as int), sep@),
        decreases parts.len() - i,
    {
        proof {
            lemma_join_step(views, sep@, i as int);
        }
        if i > 0 {
            s.append(sep);
        }
        s.append(parts[i].as_str());
        i = i + 1;
    }
    assert(views.subrange(0, parts.len() as int) =~= views);
    s
}

} // verus!
