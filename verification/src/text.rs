use vstd::prelude::*;

verus! {

/// The character of a decimal digit.
pub open spec fn digit_char(d: nat) -> char
    recommends
        d < 10,
{
    if d == 0 {
        '0'
    } else if d == 1 {
        '1'
    } else if d == 2 {
        '2'
    } else if d == 3 {
        '3'
    } else if d == 4 {
        '4'
    } else if d == 5 {
        '5'
    } else if d == 6 {
        '6'
    } else if d == 7 {
        '7'
    } else if d == 8 {
        '8'
    } else {
        '9'
    }
}

/// The decimal notation of a natural number, without leading zeros.
pub open spec fn decimal_digits(n: nat) -> Seq<char>
    decreases n,
{
    if n < 10 {
        seq![digit_char(n)]
    } else {
        decimal_digits(n / 10).push(digit_char(n % 10))
    }
}

/// A number below one hundred written with exactly two digits.
pub open spec fn two_digits(n: nat) -> Seq<char> {
    seq![digit_char((n / 10) % 10), digit_char(n % 10)]
}

/// The one-character text of a decimal digit.
pub fn digit_str(d: u64) -> (s: &'static str)
    requires
        d < 10,
    ensures
        s@ == seq![digit_char(d as nat)],
{
    if d == 0 {
        proof {
            reveal_strlit("0");
        }
        "0"
    } else if d == 1 {
        proof {
            reveal_strlit("1");
        }
        "1"
    } else if d == 2 {
        proof {
            reveal_strlit("2");
        }
        "2"
    } else if d == 3 {
        proof {
            reveal_strlit("3");
        }
        "3"
    } else if d == 4 {
        proof {
            reveal_strlit("4");
        }
        "4"
    } else if d == 5 {
        proof {
            reveal_strlit("5");
        }
        "5"
    } else if d == 6 {
        proof {
            reveal_strlit("6");
        }
        "6"
    } else if d == 7 {
        proof {
            reveal_strlit("7");
        }
        "7"
    } else if d == 8 {
        proof {
            reveal_strlit("8");
        }
        "8"
    } else {
        proof {
            reveal_strlit("9");
        }
        "9"
    }
}

/// Appends the decimal notation of `n` to `s`.
pub fn append_decimal(s: &mut String, n: u64)
    ensures
        final(s)@ == old(s)@ + decimal_digits(n as nat),
    decreases n,
{
    if n >= 10 {
        append_decimal(s, n / 10);
    }
    s.append(digit_str(n % 10));
}

/// Appends `n` (below one hundred) to `s` with exactly two digits.
pub fn append_two_digits(s: &mut String, n: u64)
    requires
        n < 100,
    ensures
        final(s)@ == old(s)@ + two_digits(n as nat),
{
    s.append(digit_str((n / 10) % 10));
    s.append(digit_str(n % 10));
}

/// Whether a non-ASCII character has the Unicode `White_Space` property, as
/// `char::is_whitespace` decides it.
pub uninterp spec fn non_ascii_white_space(c: char) -> bool;

/// What `str::to_uppercase` makes of a text that holds a non-ASCII character.
pub uninterp spec fn non_ascii_uppercase_of(s: Seq<char>) -> Seq<char>;

/// What `str::to_lowercase` makes of a text that holds a non-ASCII character.
pub uninterp spec fn non_ascii_lowercase_of(s: Seq<char>) -> Seq<char>;

/// Whether a character has the Unicode `White_Space` property, as
/// `char::is_whitespace` decides it.
pub open spec fn is_whitespace_char(c: char) -> bool {
    if (c as u32) < 128 {
        is_ascii_white_space(c)
    } else {
        non_ascii_white_space(c)
    }
}

/// What `str::to_uppercase` makes of a text.
pub open spec fn uppercase_of(s: Seq<char>) -> Seq<char> {
    if all_ascii(s) {
        s.map_values(|c: char| ascii_upper(c))
    } else {
        non_ascii_uppercase_of(s)
    }
}

/// What `str::to_lowercase` makes of a text.
pub open spec fn lowercase_of(s: Seq<char>) -> Seq<char> {
    if all_ascii(s) {
        s.map_values(|c: char| ascii_lower(c))
    } else {
        non_ascii_lowercase_of(s)
    }
}

/// The ASCII characters that are white space: tab, line feed, vertical tab,
/// form feed, carriage return and space.
pub open spec fn is_ascii_white_space(c: char) -> bool {
    c == '\t' || c == '\n' || c == '\u{0B}' || c == '\u{0C}' || c == '\r' || c == ' '
}

/// Whether every character of a text is ASCII.
pub open spec fn all_ascii(s: Seq<char>) -> bool {
    forall|i: int| 0 <= i < s.len() ==> (#[trigger] s[i] as u32) < 128
}

/// An ASCII letter in upper case; other characters are kept.
pub open spec fn ascii_upper(c: char) -> char {
    if 'a' <= c && c <= 'z' {
        ((c as u32) - 32) as char
    } else {
        c
    }
}

/// An ASCII letter in lower case; other characters are kept.
pub open spec fn ascii_lower(c: char) -> char {
    if 'A' <= c && c <= 'Z' {
        ((c as u32) + 32) as char
    } else {
        c
    }
}

/// Calls `char::is_whitespace`. The contract claims that the answer is the
/// same for the same character, that the space, the line feed and the
/// no-break space count as white space, as the function's documentation
/// shows, and, for ASCII characters, which of them the Unicode `White_Space`
/// property that the documentation names holds: tab, line feed, vertical
/// tab, form feed, carriage return and space, and no other. Which non-ASCII
/// characters have the property is not restated here.
#[verifier::external_body]
pub(crate) fn char_is_whitespace(c: char) -> (b: bool)
    ensures
        b == is_whitespace_char(c),
        (c as u32) >= 128 ==> b == non_ascii_white_space(c),
        c == '\u{A0}' ==> b,
{
    c.is_whitespace()
}

/// Calls `str::to_uppercase`. The contract claims that the result is the
/// same for the same text, and that a text of ASCII characters only is
/// mapped character by character, each ASCII letter to its upper case and
/// every other character to itself (so the empty text stays empty), as the
/// documentation's examples show. The Unicode case mapping of other
/// characters is not restated here.
#[verifier::external_body]
pub(crate) fn to_uppercase(s: &str) -> (r: String)
    ensures
        r@ == uppercase_of(s@),
        !all_ascii(s@) ==> r@ == non_ascii_uppercase_of(s@),
{
    s.to_uppercase()
}

/// Calls `str::to_lowercase`. The contract claims that the result is the
/// same for the same text, and that a text of ASCII characters only is
/// mapped character by character, each ASCII letter to its lower case and
/// every other character to itself (so the empty text stays empty), as the
/// documentation's examples show. The Unicode case mapping of other
/// characters is not restated here.
#[verifier::external_body]
pub(crate) fn to_lowercase(s: &str) -> (r: String)
    ensures
        r@ == lowercase_of(s@),
        !all_ascii(s@) ==> r@ == non_ascii_lowercase_of(s@),
{
    s.to_lowercase()
}

/// The text without its leading white space.
pub open spec fn trim_start(s: Seq<char>) -> Seq<char>
    decreases s.len(),
{
    if s.len() > 0 && is_whitespace_char(s[0]) {
        trim_start(s.drop_first())
    } else {
        s
    }
}

/// The text without its trailing white space.
pub open spec fn trim_end(s: Seq<char>) -> Seq<char>
    decreases s.len(),
{
    if s.len() > 0 && is_whitespace_char(s.last()) {
        trim_end(s.drop_last())
    } else {
        s
    }
}

/// The text without leading and trailing white space, as `str::trim` gives it.
pub open spec fn trimmed(s: Seq<char>) -> Seq<char> {
    trim_end(trim_start(s))
}

/// Whether the text holds nothing but white space.
pub open spec fn is_blank(s: Seq<char>) -> bool {
    forall|i: int| 0 <= i < s.len() ==> is_whitespace_char(#[trigger] s[i])
}

/// A text is blank exactly when trimming leaves nothing of it.
pub proof fn lemma_trimmed_empty_iff_blank(s: Seq<char>)
    ensures
        (trimmed(s).len() == 0) <==> is_blank(s),
    decreases s.len(),
{
    if s.len() > 0 && is_whitespace_char(s[0]) {
        lemma_trimmed_empty_iff_blank(s.drop_first());
        assert(is_blank(s) <==> is_blank(s.drop_first())) by {
            if is_blank(s.drop_first()) {
                assert forall|i: int| 0 <= i < s.len() implies is_whitespace_char(#[trigger] s[i]) by {
                    if i > 0 {
                        assert(s[i] == s.drop_first()[i - 1]);
                    }
                }
            }
            if is_blank(s) {
                assert forall|i: int| 0 <= i < s.drop_first().len() implies is_whitespace_char(
                    #[trigger] s.drop_first()[i],
                ) by {
                    assert(s.drop_first()[i] == s[i + 1]);
                }
            }
        }
    } else if s.len() > 0 {
        lemma_trim_end_keeps_first(s);
    }
}

/// Trimming the end of a text whose first character is not white space keeps
/// that character.
proof fn lemma_trim_end_keeps_first(s: Seq<char>)
    requires
        s.len() > 0,
        !is_whitespace_char(s[0]),
    ensures
        trim_end(s).len() > 0,
        trim_end(s)[0] == s[0],
    decreases s.len(),
{
    if is_whitespace_char(s.last()) {
        assert(s.len() > 1);
        lemma_trim_end_keeps_first(s.drop_last());
    }
}

/// The text with leading and trailing white space removed.
pub fn trim(s: &str) -> (r: &str)
    ensures
        r@ == trimmed(s@),
{
    let n = s.unicode_len();
    let mut a: usize = 0;
    assert(s@.subrange(0, n as int) =~= s@);
    while a < n && char_is_whitespace(s.get_char(a))
        invariant
            n == s@.len(),
            0 <= a <= n,
            trim_start(s@) == trim_start(s@.subrange(a as int, n as int)),
        decreases n - a,
    {
        assert(s@.subrange(a as int, n as int).drop_first() =~= s@.subrange(a + 1, n as int));
        a = a + 1;
    }
    let ghost rest = s@.subrange(a as int, n as int);
    assert(trim_start(rest) == rest);
    let mut b: usize = n;
    while b > a && char_is_whitespace(s.get_char(b - 1))
        invariant
            n == s@.len(),
            0 <= a <= b <= n,
            trim_end(rest) == trim_end(s@.subrange(a as int, b as int)),
        decreases b - a,
    {
        assert(s@.subrange(a as int, b as int).drop_last() =~= s@.subrange(a as int, b - 1));
        b = b - 1;
    }
    let ghost kept = s@.subrange(a as int, b as int);
    assert(trim_end(kept) == kept);
    s.substring_char(a, b)
}

/// Whether the text contains the character `c`.
pub fn contains_char(s: &str, c: char) -> (b: bool)
    ensures
        b == s@.contains(c),
{
    let n = s.unicode_len();
    let mut i: usize = 0;
    while i < n
        invariant
            n == s@.len(),
            0 <= i <= n,
            forall|j: int| 0 <= j < i ==> s@[j] != c,
        decreases n - i,
    {
        if s.get_char(i) == c {
            return true;
        }
        i = i + 1;
    }
    false
}

} // verus!
