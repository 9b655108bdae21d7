//! The grammar engine shared by all sigil-delimited identifier types:
//! `<sigil><local>:<host>[:<port>]` with length limits and canonical
//! rendering that omits the default port.

use vstd::prelude::*;

use crate::authority::{authority_result, authority_str, parse_authority};
use crate::chars::{byte_len, lemma_byte_len_concat};
use crate::error::Error;

verus! {

broadcast use vstd::slice::axiom_spec_len;

/// An identifier string must be 255 bytes or less.
pub const MAX_BYTES: usize = 255;

/// The minimum number of characters an identifier string can be: the
/// shortest possible identifier is a sigil, a one-character local part, a
/// colon, and a one-character host.
pub const MIN_CHARS: usize = 4;

/// The default port, never rendered explicitly in canonical form.
pub const DEFAULT_PORT: u16 = 443;

/// The outcome of running the shared grammar: local part, host and port on
/// success, a rejection kind otherwise.
pub type SpecIdParts = Result<(Seq<char>, Seq<char>, u16), Error>;

/// The first position `i <= j < s.len()` holding a colon, if any.
pub open spec fn spec_find_delim(s: Seq<char>, i: int) -> Option<int>
    decreases s.len() - i,
{
    if i < 0 || i >= s.len() {
        None
    } else if s[i] == ':' {
        Some(i)
    } else {
        spec_find_delim(s, i + 1)
    }
}

/// What a found delimiter position means: it holds a colon and nothing
/// before it (from the search start) does.
pub proof fn lemma_find_delim_some(s: Seq<char>, i: int, j: int)
    requires
        spec_find_delim(s, i) == Some(j),
    ensures
        i <= j < s.len(),
        s[j] == ':',
        forall|k: int| i <= k < j ==> s[k] != ':',
    decreases s.len() - i,
{
    if 0 <= i < s.len() && s[i] != ':' {
        lemma_find_delim_some(s, i + 1, j);
    }
}

/// Skipping over colon-free positions does not change the search result.
pub proof fn lemma_find_delim_skip(s: Seq<char>, i: int, j: int)
    requires
        0 <= i <= j <= s.len(),
        forall|k: int| i <= k < j ==> s[k] != ':',
    ensures
        spec_find_delim(s, i) == spec_find_delim(s, j),
    decreases j - i,
{
    if i < j {
        lemma_find_delim_skip(s, i + 1, j);
    }
}

/// The shared grammar, applied to the view of an input string: enforce the
/// byte-length cap, the character-count floor, the leading sigil and the
/// colon delimiter, split off the local part, and hand the remainder to the
/// external host parser.
pub open spec fn spec_parse_id(sigil: char, s: Seq<char>) -> SpecIdParts {
    if byte_len(s) > MAX_BYTES {
        Err(Error::MaximumLengthExceeded)
    } else if s.len() < MIN_CHARS {
        Err(Error::MinimumLengthNotSatisfied)
    } else if s[0] != sigil {
        Err(Error::MissingSigil)
    } else {
        match spec_find_delim(s, 1) {
            None => Err(Error::MissingDelimiter),
            Some(delim) => {
                let local = s.subrange(1, delim);
                let rest = s.subrange(delim + 1, s.len() as int);
                match authority_result(rest) {
                    Some(hp) => Ok((local, hp.0, hp.1)),
                    None => Err(Error::InvalidHost),
                }
            },
        }
    }
}

/// The canonical rendering of an identifier from its parts.
pub open spec fn sigil_id_str(sigil: char, local: Seq<char>, host: Seq<char>, port: u16) -> Seq<
    char,
> {
    seq![sigil] + local + seq![':'] + authority_str(host, port)
}

/// The candidate string built by random generation: sigil, generated local
/// part, colon, caller-supplied server name.
pub open spec fn candidate_str(sigil: char, local: Seq<char>, server: Seq<char>) -> Seq<char> {
    seq![sigil] + local + seq![':'] + server
}

/// A successfully parsed local part contains no colon: it ends at the first
/// delimiter of the input.
pub proof fn lemma_parsed_local_colon_free(
    sigil: char,
    s: Seq<char>,
    local: Seq<char>,
    host: Seq<char>,
    port: u16,
)
    requires
        spec_parse_id(sigil, s) == Ok::<_, Error>((local, host, port)),
    ensures
        forall|k: int| 0 <= k < local.len() ==> local[k] != ':',
{
    let j = spec_find_delim(s, 1)->Some_0;
    lemma_find_delim_some(s, 1, j);
    assert(local =~= s.subrange(1, j));
    assert forall|k: int| 0 <= k < local.len() implies local[k] != ':' by {
        assert(local[k] == s[1 + k]);
    }
}

/// Running the grammar on `<sigil><local>:<tail>`, for a colon-free local
/// part and within the length bounds, always splits at the written colon
/// and hands exactly `tail` to the host parser.
pub proof fn lemma_parse_assembled(sigil: char, local: Seq<char>, tail: Seq<char>)
    requires
        forall|k: int| 0 <= k < local.len() ==> local[k] != ':',
        byte_len(candidate_str(sigil, local, tail)) <= MAX_BYTES,
        candidate_str(sigil, local, tail).len() >= MIN_CHARS,
    ensures
        spec_parse_id(sigil, candidate_str(sigil, local, tail)) == match authority_result(tail) {
            Some(hp) => Ok::<_, Error>((local, hp.0, hp.1)),
            None => Err::<(Seq<char>, Seq<char>, u16), Error>(Error::InvalidHost),
        },
{
    let f = candidate_str(sigil, local, tail);
    let ll = local.len() as int;
    assert(f.len() == 2 + ll + tail.len());
    assert(f[0] == sigil);
    assert(f[1 + ll] == ':');
    assert forall|k: int| 1 <= k < 1 + ll implies f[k] != ':' by {
        assert(f[k] == local[k - 1]);
    }
    lemma_find_delim_skip(f, 1, 1 + ll);
    assert(spec_find_delim(f, 1 + ll) == Some(1 + ll));
    assert(f.subrange(1, 1 + ll) =~= local);
    assert(f.subrange(1 + ll + 1, f.len() as int) =~= tail);
}

/// Round-trip law: whenever the grammar accepts an input and yields a local
/// part, host and port, its canonical rendering of those parts is accepted
/// again and yields the same parts — provided the rendering itself
/// satisfies the two length bounds, and the host parser accepts the
/// authority it previously produced (which `parse_id` establishes for every
/// host and port it returns).
pub proof fn lemma_parse_format_round_trip(
    sigil: char,
    s: Seq<char>,
    local: Seq<char>,
    host: Seq<char>,
    port: u16,
)
    requires
        spec_parse_id(sigil, s) == Ok::<_, Error>((local, host, port)),
        authority_result(authority_str(host, port)) == Some((host, port)),
        byte_len(sigil_id_str(sigil, local, host, port)) <= MAX_BYTES,
        sigil_id_str(sigil, local, host, port).len() >= MIN_CHARS,
    ensures
        spec_parse_id(sigil, sigil_id_str(sigil, local, host, port)) == Ok::<_, Error>(
            (local, host, port),
        ),
{
    lemma_parsed_local_colon_free(sigil, s, local, host, port);
    assert(sigil_id_str(sigil, local, host, port) == candidate_str(
        sigil,
        local,
        authority_str(host, port),
    ));
    lemma_parse_assembled(sigil, local, authority_str(host, port));
}

/// The byte length of a generated candidate: one byte for the ASCII sigil,
/// one per character of the ASCII local part, one for the colon, plus the
/// bytes of the server name.
pub proof fn lemma_candidate_byte_len(sigil: char, local: Seq<char>, server: Seq<char>)
    requires
        crate::chars::is_alnum_seq(local),
        '\0' <= sigil <= '\u{7f}',
    ensures
        byte_len(candidate_str(sigil, local, server)) == 2 + local.len() + byte_len(server),
{
    let s1 = seq![sigil];
    let s3 = seq![':'];
    lemma_byte_len_concat(s1 + local + s3, server);
    lemma_byte_len_concat(s1 + local, s3);
    lemma_byte_len_concat(s1, local);
    crate::chars::lemma_alnum_is_ascii(local);
    crate::chars::lemma_byte_len_ascii(s1);
    crate::chars::lemma_byte_len_ascii(local);
    crate::chars::lemma_byte_len_ascii(s3);
}

/// Finds the first colon at position 1 or later.
fn find_delim(id: &str, n: usize) -> (r: Option<usize>)
    requires
        n == id@.len(),
        n >= 1,
    ensures
        match r {
            Some(i) => 1 <= i < n && spec_find_delim(id@, 1) == Some(i as int),
            None => spec_find_delim(id@, 1) is None,
        },
{
    let mut i: usize = 1;
    while i < n
        invariant
            1 <= i <= n,
            n == id@.len(),
            spec_find_delim(id@, 1) == spec_find_delim(id@, i as int),
        decreases n - i,
    {
        if id.get_char(i) == ':' {
            return Some(i);
        }
        i = i + 1;
    }
    None
}

/// Runs the shared grammar on `id`, expecting `required_sigil` first.
///
/// On success the returned local part, host and port are exactly what the
/// grammar prescribes for `id`, and in addition the host and port are known
/// to survive re-parsing of their canonical authority rendering — the fact
/// the round-trip law needs.
pub(crate) fn parse_id(required_sigil: char, id: &str) -> (r: Result<(String, String, u16), Error>)
    ensures
        match r {
            Ok(parts) => {
                &&& spec_parse_id(required_sigil, id@) == Ok::<_, Error>(
                    (parts.0@, parts.1@, parts.2),
                )
                &&& authority_result(authority_str(parts.1@, parts.2)) == Some(
                    (parts.1@, parts.2),
                )
            },
            Err(e) => spec_parse_id(required_sigil, id@) == Err::<(Seq<char>, Seq<char>, u16), _>(
                e,
            ),
        },
{
    if id.as_bytes().len() > MAX_BYTES {
        return Err(Error::MaximumLengthExceeded);
    }
    let n: usize = id.unicode_len();
    if n < MIN_CHARS {
        return Err(Error::MinimumLengthNotSatisfied);
    }
    if id.get_char(0) != required_sigil {
        return Err(Error::MissingSigil);
    }
    let delim = match find_delim(id, n) {
        Some(i) => i,
        None => {
            return Err(Error::MissingDelimiter);
        },
    };
    let local = id.substring_char(1, delim);
    let rest = id.substring_char(delim + 1, n);
    match parse_authority(rest) {
        Some(hp) => Ok((local.to_owned(), hp.0, hp.1)),
        None => Err(Error::InvalidHost),
    }
}

/// Renders the canonical form: sigil, local part, colon, host, and the
/// decimal port after one more colon only when it is not the default.
pub(crate) fn format_id(sigil_str: &str, local: &str, host: &str, port: u16) -> (r: String)
    requires
        sigil_str@.len() == 1,
    ensures
        r@ == sigil_id_str(sigil_str@[0], local@, host@, port),
{
    let mut out = String::new();
    out.append(sigil_str);
    out.append(local);
    out.append(":");
    out.append(host);
    proof {
        reveal_strlit(":");
    }
    if port != DEFAULT_PORT {
        out.append(":");
        crate::chars::append_decimal(&mut out, port);
        proof {
            assert(out@ =~= sigil_id_str(sigil_str@[0], local@, host@, port));
        }
    } else {
        proof {
            assert(out@ =~= sigil_id_str(sigil_str@[0], local@, host@, port));
        }
    }
    out
}

} // verus!
