//! Character classes, UTF-8 byte lengths and decimal renderings used by the
//! identifier grammar.

use vstd::prelude::*;

verus! {

/// Characters permitted in a user ID localpart: lowercase ASCII letters,
/// digits, `.`, `_`, `=` and `-`.
pub open spec fn is_localpart_char(c: char) -> bool {
    ('a' <= c && c <= 'z') || ('0' <= c && c <= '9') || c == '.' || c == '_' || c == '='
        || c == '-'
}

/// A valid user ID localpart: one or more characters, all from the
/// restricted localpart character set.
pub open spec fn is_valid_localpart(s: Seq<char>) -> bool {
    s.len() > 0 && (forall|i: int| 0 <= i < s.len() ==> is_localpart_char(#[trigger] s[i]))
}

/// An ASCII letter or digit, the alphabet of randomly generated local parts.
pub open spec fn is_alnum_char(c: char) -> bool {
    ('A' <= c && c <= 'Z') || ('a' <= c && c <= 'z') || ('0' <= c && c <= '9')
}

/// Every character of `s` is an ASCII letter or digit.
pub open spec fn is_alnum_seq(s: Seq<char>) -> bool {
    forall|i: int| 0 <= i < s.len() ==> is_alnum_char(#[trigger] s[i])
}

/// The length in bytes of the UTF-8 encoding of `s`; this is what
/// `str::len` returns for a string slice whose view is `s`.
pub open spec fn byte_len(s: Seq<char>) -> nat {
    vstd::utf8::encode_utf8(s).len()
}

/// UTF-8 encoding distributes over concatenation, so byte lengths add up.
pub proof fn lemma_byte_len_concat(a: Seq<char>, b: Seq<char>)
    ensures
        byte_len(a + b) == byte_len(a) + byte_len(b),
    decreases a.len(),
{
    if a.len() == 0 {
        assert(a + b =~= b);
    } else {
        assert((a + b).drop_first() =~= a.drop_first() + b);
        assert((a + b)[0] == a[0]);
        lemma_byte_len_concat(a.drop_first(), b);
    }
}

/// An all-ASCII sequence occupies exactly one byte per character.
pub proof fn lemma_byte_len_ascii(s: Seq<char>)
    requires
        vstd::utf8::is_ascii_chars(s),
    ensures
        byte_len(s) == s.len(),
{
    vstd::utf8::is_ascii_chars_encode_utf8(s);
}

/// ASCII letters and digits are ASCII characters.
pub proof fn lemma_alnum_is_ascii(s: Seq<char>)
    requires
        is_alnum_seq(s),
    ensures
        vstd::utf8::is_ascii_chars(s),
{
}

/// ASCII letters and digits are never the delimiter colon.
pub proof fn lemma_alnum_colon_free(s: Seq<char>)
    requires
        is_alnum_seq(s),
    ensures
        forall|k: int| 0 <= k < s.len() ==> s[k] != ':',
{
    assert forall|k: int| 0 <= k < s.len() implies s[k] != ':' by {
        assert(is_alnum_char(s[k]));
    }
}

/// Checks the localpart pattern: nonempty, every character in
/// `[a-z0-9._=-]`.
pub(crate) fn is_localpart_str(s: &str) -> (r: bool)
    ensures
        r == is_valid_localpart(s@),
{
    let n: usize = s.unicode_len();
    if n == 0 {
        return false;
    }
    let mut i: usize = 0;
    while i < n
        invariant
            0 <= i <= n,
            n == s@.len(),
            forall|k: int| 0 <= k < i ==> is_localpart_char(#[trigger] s@[k]),
        decreases n - i,
    {
        let c = s.get_char(i);
        let ok = ('a' <= c && c <= 'z') || ('0' <= c && c <= '9') || c == '.' || c == '_' || c
            == '=' || c == '-';
        if !ok {
            return false;
        }
        i = i + 1;
    }
    true
}

/// The character for a single decimal digit value.
pub open spec fn digit_char(d: int) -> char {
    if d == 0 {
        '0'
    } else if d == 1 {
        '1'
    } else if d == 2 {
        '2'
    } else if d == 3 {
        '3'
    } else if d == 4 {
        '4'
    } else if d == 5 {
        '5'
    } else if d == 6 {
        '6'
    } else if d == 7 {
        '7'
    } else if d == 8 {
        '8'
    } else {
        '9'
    }
}

/// The decimal rendering of a non-negative integer, most significant digit
/// first and without leading zeros.
pub open spec fn dec_digits(n: int) -> Seq<char>
    recommends
        n >= 0,
    decreases n,
{
    if n < 10 {
        seq![digit_char(n)]
    } else {
        dec_digits(n / 10).push(digit_char(n % 10))
    }
}

/// Appends the decimal rendering of `n` to `out`.
pub fn append_decimal(out: &mut String, n: u16)
    ensures
        final(out)@ == old(out)@ + dec_digits(n as int),
    decreases n,
{
    if n >= 10 {
        append_decimal(out, n / 10);
    }
    let d: u16 = n % 10;
    let digit: &str = match d {
        0 => "0",
        1 => "1",
        2 => "2",
        3 => "3",
        4 => "4",
        5 => "5",
        6 => "6",
        7 => "7",
        8 => "8",
        _ => "9",
    };
    proof {
        reveal_strlit("0");
        reveal_strlit("1");
        reveal_strlit("2");
        reveal_strlit("3");
        reveal_strlit("4");
        reveal_strlit("5");
        reveal_strlit("6");
        reveal_strlit("7");
        reveal_strlit("8");
        reveal_strlit("9");
        assert(digit@ =~= seq![digit_char(d as int)]);
    }
    out.append(digit);
    proof {
        if n < 10 {
            assert(out@ =~= old(out)@ + dec_digits(n as int));
        } else {
            assert(dec_digits(n as int) == dec_digits(n as int / 10).push(
                digit_char(n as int % 10),
            ));
            assert(out@ =~= old(out)@ + dec_digits(n as int));
        }
    }
}

} // verus!
