//! Types for the structured textual identifiers of a federated messaging
//! protocol: event IDs, room IDs, room alias IDs, user IDs, user localparts
//! and room version IDs.
//!
//! Every sigil-delimited identifier follows the common grammar
//! `<sigil><local>:<host>[:<port>]`, enforced by a shared engine; the
//! canonical rendering omits the default port 443. Host validation is
//! delegated to an external URL parser and random local parts to an
//! external generator, both behind narrow trusted boundaries.

pub mod authority;
pub mod chars;
pub mod error;
pub mod grammar;
mod random;
pub mod room_version_id;

pub use error::Error;
pub use room_version_id::{spec_parse_room_version, RoomVersionId, RoomVersionIdView};

use vstd::prelude::*;

use crate::authority::{authority_result, authority_str};
use crate::chars::{byte_len, is_alnum_seq, is_valid_localpart, lemma_alnum_colon_free};
use crate::grammar::{
    candidate_str, format_id, lemma_candidate_byte_len, lemma_parse_assembled,
    lemma_parse_format_round_trip, parse_id, sigil_id_str, spec_parse_id, SpecIdParts, MAX_BYTES,
    MIN_CHARS,
};
use crate::random::random_alphanumeric;

verus! {

/// The mathematical content of a sigil identifier: its local part (opaque
/// ID, alias, or user localpart), its normalized host rendering, and its
/// port.
pub ghost struct IdView {
    pub local: Seq<char>,
    pub host: Seq<char>,
    pub port: u16,
}

/// The server name of an identifier, as normalized by the external host
/// parser: a domain name, an IPv4 address, or a bracketed IPv6 address.
#[derive(Clone, Debug, Eq, Hash)]
pub struct Host {
    inner: String,
}

impl View for Host {
    type V = Seq<char>;

    closed spec fn view(&self) -> Seq<char> {
        self.inner@
    }
}

impl Host {
    /// The textual rendering of the host.
    pub fn as_str(&self) -> (r: &str)
        ensures
            r@ == self@,
    {
        self.inner.as_str()
    }
}

impl PartialEq for Host {
    /// Two hosts are equal exactly when their renderings are.
    fn eq(&self, other: &Host) -> (r: bool) {
        self.inner == other.inner
    }
}

impl vstd::std_specs::cmp::PartialEqSpecImpl for Host {
    open spec fn obeys_eq_spec() -> bool {
        true
    }

    open spec fn eq_spec(&self, other: &Host) -> bool {
        self@ == other@
    }
}

/// A Matrix event ID.
///
/// An `EventId` is generated randomly or converted from a string slice, and
/// can be converted back into a string as needed.
#[derive(Clone, Debug, Eq, Hash)]
pub struct EventId {
    hostname: Host,
    opaque_id: String,
    port: u16,
}

impl View for EventId {
    type V = IdView;

    closed spec fn view(&self) -> IdView {
        IdView { local: self.opaque_id@, host: self.hostname@, port: self.port }
    }
}

impl PartialEq for EventId {
    /// Two event IDs are equal exactly when opaque ID, host and port all
    /// are; the port takes part even when the canonical rendering hides
    /// the default.
    fn eq(&self, other: &EventId) -> (r: bool) {
        self.hostname == other.hostname && self.opaque_id == other.opaque_id && self.port
            == other.port
    }
}

impl vstd::std_specs::cmp::PartialEqSpecImpl for EventId {
    open spec fn obeys_eq_spec() -> bool {
        true
    }

    open spec fn eq_spec(&self, other: &EventId) -> bool {
        self@ == other@
    }
}

/// A Matrix room ID.
///
/// A `RoomId` is generated randomly or converted from a string slice, and
/// can be converted back into a string as needed.
#[derive(Clone, Debug, Eq, Hash)]
pub struct RoomId {
    hostname: Host,
    opaque_id: String,
    port: u16,
}

impl View for RoomId {
    type V = IdView;

    closed spec fn view(&self) -> IdView {
        IdView { local: self.opaque_id@, host: self.hostname@, port: self.port }
    }
}

impl PartialEq for RoomId {
    /// Two room IDs are equal exactly when opaque ID, host and port all
    /// are.
    fn eq(&self, other: &RoomId) -> (r: bool) {
        self.hostname == other.hostname && self.opaque_id == other.opaque_id && self.port
            == other.port
    }
}

impl vstd::std_specs::cmp::PartialEqSpecImpl for RoomId {
    open spec fn obeys_eq_spec() -> bool {
        true
    }

    open spec fn eq_spec(&self, other: &RoomId) -> bool {
        self@ == other@
    }
}

/// A Matrix room alias ID.
///
/// A `RoomAliasId` is converted from a string slice, and can be converted
/// back into a string as needed.
#[derive(Clone, Debug, Eq, Hash)]
pub struct RoomAliasId {
    alias: String,
    hostname: Host,
    port: u16,
}

impl View for RoomAliasId {
    type V = IdView;

    closed spec fn view(&self) -> IdView {
        IdView { local: self.alias@, host: self.hostname@, port: self.port }
    }
}

impl PartialEq for RoomAliasId {
    /// Two room alias IDs are equal exactly when alias, host and port all
    /// are.
    fn eq(&self, other: &RoomAliasId) -> (r: bool) {
        self.alias == other.alias && self.hostname == other.hostname && self.port == other.port
    }
}

impl vstd::std_specs::cmp::PartialEqSpecImpl for RoomAliasId {
    open spec fn obeys_eq_spec() -> bool {
        true
    }

    open spec fn eq_spec(&self, other: &RoomAliasId) -> bool {
        self@ == other@
    }
}

/// A Matrix user ID.
///
/// A `UserId` is generated randomly or converted from a string slice, and
/// can be converted back into a string as needed.
#[derive(Clone, Debug, Eq, Hash)]
pub struct UserId {
    hostname: Host,
    localpart: UserLocalpart,
    port: u16,
}

impl View for UserId {
    type V = IdView;

    closed spec fn view(&self) -> IdView {
        IdView { local: self.localpart@, host: self.hostname@, port: self.port }
    }
}

impl PartialEq for UserId {
    /// Two user IDs are equal exactly when localpart, host and port all
    /// are.
    fn eq(&self, other: &UserId) -> (r: bool) {
        self.hostname == other.hostname && self.localpart == other.localpart && self.port
            == other.port
    }
}

impl vstd::std_specs::cmp::PartialEqSpecImpl for UserId {
    open spec fn obeys_eq_spec() -> bool {
        true
    }

    open spec fn eq_spec(&self, other: &UserId) -> bool {
        self@ == other@
    }
}

/// The localpart of a Matrix user ID (no sigil or server name).
///
/// A `UserLocalpart` is generated randomly or converted from a string
/// slice; the conversion is the only point that enforces the restricted
/// character set `[a-z0-9._=-]+`.
#[derive(Clone, Debug, Eq, Hash)]
pub struct UserLocalpart {
    inner: String,
}

impl View for UserLocalpart {
    type V = Seq<char>;

    closed spec fn view(&self) -> Seq<char> {
        self.inner@
    }
}

impl PartialEq for UserLocalpart {
    /// Two localparts are equal exactly when their strings are.
    fn eq(&self, other: &UserLocalpart) -> (r: bool) {
        self.inner == other.inner
    }
}

impl vstd::std_specs::cmp::PartialEqSpecImpl for UserLocalpart {
    open spec fn obeys_eq_spec() -> bool {
        true
    }

    open spec fn eq_spec(&self, other: &UserLocalpart) -> bool {
        self@ == other@
    }
}

/// The grammar for user IDs: the shared sigil grammar with `@`, followed by
/// validation of the local part against the localpart character set.
pub open spec fn spec_parse_user_id(s: Seq<char>) -> SpecIdParts {
    match spec_parse_id('@', s) {
        Ok(parts) => if is_valid_localpart(parts.0) {
            Ok(parts)
        } else {
            Err(Error::InvalidCharacters)
        },
        Err(e) => Err(e),
    }
}

impl EventId {
    /// The canonical string form of this event ID.
    pub open spec fn spec_str(&self) -> Seq<char> {
        sigil_id_str('$', self@.local, self@.host, self@.port)
    }

    /// Attempts to generate an `EventId` for the given origin server with
    /// an opaque ID consisting of 18 random ASCII characters.
    ///
    /// Fails exactly when the candidate string `$<random>:<server_name>`
    /// is rejected by the shared grammar: when it exceeds the byte cap, or
    /// when the server name cannot be parsed as a valid host.
    pub fn new(server_name: &str) -> (r: Result<Self, Error>)
        ensures
            byte_len(server_name@) + 20 > MAX_BYTES ==> r == Err::<Self, Error>(
                Error::MaximumLengthExceeded,
            ),
            byte_len(server_name@) + 20 <= MAX_BYTES ==> match authority_result(server_name@) {
                Some(hp) => r matches Ok(id) && id@.host == hp.0 && id@.port == hp.1
                    && id@.local.len() == 18 && is_alnum_seq(id@.local),
                None => r == Err::<Self, Error>(Error::InvalidHost),
            },
    {
        let local = random_alphanumeric(18);
        let mut candidate = String::new();
        candidate.append("$");
        candidate.append(local.as_str());
        candidate.append(":");
        candidate.append(server_name);
        proof {
            reveal_strlit("$");
            reveal_strlit(":");
            assert(candidate@ =~= candidate_str('$', local@, server_name@));
            lemma_candidate_byte_len('$', local@, server_name@);
            lemma_alnum_colon_free(local@);
            if byte_len(candidate@) <= MAX_BYTES {
                lemma_parse_assembled('$', local@, server_name@);
            }
        }
        match parse_id('$', candidate.as_str()) {
            Ok(parts) => Ok(
                EventId { hostname: Host { inner: parts.1 }, opaque_id: parts.0, port: parts.2 },
            ),
            Err(e) => Err(e),
        }
    }

    /// Attempts to create a new Matrix event ID from a string
    /// representation.
    ///
    /// The string must include the leading `$` sigil, the opaque ID, a
    /// literal colon, and a valid server name.
    pub fn try_from(event_id: &str) -> (r: Result<Self, Error>)
        ensures
            match r {
                Ok(id) => {
                    &&& spec_parse_id('$', event_id@) == Ok::<_, Error>(
                        (id@.local, id@.host, id@.port),
                    )
                    &&& byte_len(id.spec_str()) <= MAX_BYTES && id.spec_str().len() >= MIN_CHARS
                        ==> spec_parse_id('$', id.spec_str()) == Ok::<_, Error>(
                        (id@.local, id@.host, id@.port),
                    )
                },
                Err(e) => spec_parse_id('$', event_id@) == Err::<(Seq<char>, Seq<char>, u16), _>(
                    e,
                ),
            },
    {
        match parse_id('$', event_id) {
            Ok(parts) => {
                let id = EventId {
                    hostname: Host { inner: parts.1 },
                    opaque_id: parts.0,
                    port: parts.2,
                };
                proof {
                    if byte_len(id.spec_str()) <= MAX_BYTES && id.spec_str().len() >= MIN_CHARS {
                        lemma_parse_format_round_trip(
                            '$',
                            event_id@,
                            id@.local,
                            id@.host,
                            id@.port,
                        );
                    }
                }
                Ok(id)
            },
            Err(e) => Err(e),
        }
    }

    /// Returns a `Host` for the event ID, containing the server name
    /// (minus the port) of the originating homeserver.
    pub fn hostname(&self) -> (r: &Host)
        ensures
            r@ == self@.host,
    {
        &self.hostname
    }

    /// Returns the event's opaque ID.
    pub fn opaque_id(&self) -> (r: &str)
        ensures
            r@ == self@.local,
    {
        self.opaque_id.as_str()
    }

    /// Returns the port the originating homeserver can be accessed on.
    pub fn port(&self) -> (r: u16)
        ensures
            r == self@.port,
    {
        self.port
    }

    /// The canonical string form: the default port is never rendered.
    pub fn to_string(&self) -> (r: String)
        ensures
            r@ == self.spec_str(),
    {
        proof {
            reveal_strlit("$");
        }
        format_id("$", self.opaque_id.as_str(), self.hostname.as_str(), self.port)
    }
}

impl RoomId {
    /// The canonical string form of this room ID.
    pub open spec fn spec_str(&self) -> Seq<char> {
        sigil_id_str('!', self@.local, self@.host, self@.port)
    }

    /// Attempts to generate a `RoomId` for the given origin server with an
    /// opaque ID consisting of 18 random ASCII characters.
    ///
    /// Fails exactly when the candidate string `!<random>:<server_name>`
    /// is rejected by the shared grammar: when it exceeds the byte cap, or
    /// when the server name cannot be parsed as a valid host.
    pub fn new(server_name: &str) -> (r: Result<Self, Error>)
        ensures
            byte_len(server_name@) + 20 > MAX_BYTES ==> r == Err::<Self, Error>(
                Error::MaximumLengthExceeded,
            ),
            byte_len(server_name@) + 20 <= MAX_BYTES ==> match authority_result(server_name@) {
                Some(hp) => r matches Ok(id) && id@.host == hp.0 && id@.port == hp.1
                    && id@.local.len() == 18 && is_alnum_seq(id@.local),
                None => r == Err::<Self, Error>(Error::InvalidHost),
            },
    {
        let local = random_alphanumeric(18);
        let mut candidate = String::new();
        candidate.append("!");
        candidate.append(local.as_str());
        candidate.append(":");
        candidate.append(server_name);
        proof {
            reveal_strlit("!");
            reveal_strlit(":");
            assert(candidate@ =~= candidate_str('!', local@, server_name@));
            lemma_candidate_byte_len('!', local@, server_name@);
            lemma_alnum_colon_free(local@);
            if byte_len(candidate@) <= MAX_BYTES {
                lemma_parse_assembled('!', local@, server_name@);
            }
        }
        match parse_id('!', candidate.as_str()) {
            Ok(parts) => Ok(
                RoomId { hostname: Host { inner: parts.1 }, opaque_id: parts.0, port: parts.2 },
            ),
            Err(e) => Err(e),
        }
    }

    /// Attempts to create a new Matrix room ID from a string
    /// representation.
    ///
    /// The string must include the leading `!` sigil, the opaque ID, a
    /// literal colon, and a valid server name.
    pub fn try_from(room_id: &str) -> (r: Result<Self, Error>)
        ensures
            match r {
                Ok(id) => {
                    &&& spec_parse_id('!', room_id@) == Ok::<_, Error>(
                        (id@.local, id@.host, id@.port),
                    )
                    &&& byte_len(id.spec_str()) <= MAX_BYTES && id.spec_str().len() >= MIN_CHARS
                        ==> spec_parse_id('!', id.spec_str()) == Ok::<_, Error>(
                        (id@.local, id@.host, id@.port),
                    )
                },
                Err(e) => spec_parse_id('!', room_id@) == Err::<(Seq<char>, Seq<char>, u16), _>(e),
            },
    {
        match parse_id('!', room_id) {
            Ok(parts) => {
                let id = RoomId {
                    hostname: Host { inner: parts.1 },
                    opaque_id: parts.0,
                    port: parts.2,
                };
                proof {
                    if byte_len(id.spec_str()) <= MAX_BYTES && id.spec_str().len() >= MIN_CHARS {
                        lemma_parse_format_round_trip('!', room_id@, id@.local, id@.host, id@.port);
                    }
                }
                Ok(id)
            },
            Err(e) => Err(e),
        }
    }

    /// Returns a `Host` for the room ID, containing the server name (minus
    /// the port) of the originating homeserver.
    pub fn hostname(&self) -> (r: &Host)
        ensures
            r@ == self@.host,
    {
        &self.hostname
    }

    /// Returns the room's opaque ID.
    pub fn opaque_id(&self) -> (r: &str)
        ensures
            r@ == self@.local,
    {
        self.opaque_id.as_str()
    }

    /// Returns the port the originating homeserver can be accessed on.
    pub fn port(&self) -> (r: u16)
        ensures
            r == self@.port,
    {
        self.port
    }

    /// The canonical string form: the default port is never rendered.
    pub fn to_string(&self) -> (r: String)
        ensures
            r@ == self.spec_str(),
    {
        proof {
            reveal_strlit("!");
        }
        format_id("!", self.opaque_id.as_str(), self.hostname.as_str(), self.port)
    }
}

impl RoomAliasId {
    /// The canonical string form of this room alias ID.
    pub open spec fn spec_str(&self) -> Seq<char> {
        sigil_id_str('#', self@.local, self@.host, self@.port)
    }

    /// Attempts to create a new Matrix room alias ID from a string
    /// representation.
    ///
    /// The string must include the leading `#` sigil, the alias, a literal
    /// colon, and a valid server name.
    pub fn try_from(room_alias_id: &str) -> (r: Result<Self, Error>)
        ensures
            match r {
                Ok(id) => {
                    &&& spec_parse_id('#', room_alias_id@) == Ok::<_, Error>(
                        (id@.local, id@.host, id@.port),
                    )
                    &&& byte_len(id.spec_str()) <= MAX_BYTES && id.spec_str().len() >= MIN_CHARS
                        ==> spec_parse_id('#', id.spec_str()) == Ok::<_, Error>(
                        (id@.local, id@.host, id@.port),
                    )
                },
                Err(e) => spec_parse_id('#', room_alias_id@) == Err::<
                    (Seq<char>, Seq<char>, u16),
                    _,
                >(e),
            },
    {
        match parse_id('#', room_alias_id) {
            Ok(parts) => {
                let id = RoomAliasId {
                    alias: parts.0,
                    hostname: Host { inner: parts.1 },
                    port: parts.2,
                };
                proof {
                    if byte_len(id.spec_str()) <= MAX_BYTES && id.spec_str().len() >= MIN_CHARS {
                        lemma_parse_format_round_trip(
                            '#',
                            room_alias_id@,
                            id@.local,
                            id@.host,
                            id@.port,
                        );
                    }
                }
                Ok(id)
            },
            Err(e) => Err(e),
        }
    }

    /// Returns a `Host` for the room alias ID, containing the server name
    /// (minus the port) of the originating homeserver.
    pub fn hostname(&self) -> (r: &Host)
        ensures
            r@ == self@.host,
    {
        &self.hostname
    }

    /// Returns the room's alias.
    pub fn alias(&self) -> (r: &str)
        ensures
            r@ == self@.local,
    {
        self.alias.as_str()
    }

    /// Returns the port the originating homeserver can be accessed on.
    pub fn port(&self) -> (r: u16)
        ensures
            r == self@.port,
    {
        self.port
    }

    /// The canonical string form: the default port is never rendered.
    pub fn to_string(&self) -> (r: String)
        ensures
            r@ == self.spec_str(),
    {
        proof {
            reveal_strlit("#");
        }
        format_id("#", self.alias.as_str(), self.hostname.as_str(), self.port)
    }
}

impl UserId {
    /// The canonical string form of this user ID.
    pub open spec fn spec_str(&self) -> Seq<char> {
        sigil_id_str('@', self@.local, self@.host, self@.port)
    }

    /// Attempts to generate a `UserId` for the given origin server with a
    /// localpart consisting of 12 random ASCII characters.
    ///
    /// The generated localpart is kept as produced, without the character
    /// set validation that parsing performs; failure modes are those of the
    /// shared grammar on the candidate string `@<random>:<server_name>`.
    pub fn new(server_name: &str) -> (r: Result<Self, Error>)
        ensures
            byte_len(server_name@) + 14 > MAX_BYTES ==> r == Err::<Self, Error>(
                Error::MaximumLengthExceeded,
            ),
            byte_len(server_name@) + 14 <= MAX_BYTES ==> match authority_result(server_name@) {
                Some(hp) => r matches Ok(id) && id@.host == hp.0 && id@.port == hp.1
                    && id@.local.len() == 12 && is_alnum_seq(id@.local),
                None => r == Err::<Self, Error>(Error::InvalidHost),
            },
    {
        let localpart = UserLocalpart::new();
        let mut candidate = String::new();
        candidate.append("@");
        candidate.append(localpart.as_str());
        candidate.append(":");
        candidate.append(server_name);
        proof {
            reveal_strlit("@");
            reveal_strlit(":");
            assert(candidate@ =~= candidate_str('@', localpart@, server_name@));
            lemma_candidate_byte_len('@', localpart@, server_name@);
            lemma_alnum_colon_free(localpart@);
            if byte_len(candidate@) <= MAX_BYTES {
                lemma_parse_assembled('@', localpart@, server_name@);
            }
        }
        match parse_id('@', candidate.as_str()) {
            Ok(parts) => Ok(
                UserId { hostname: Host { inner: parts.1 }, localpart, port: parts.2 },
            ),
            Err(e) => Err(e),
        }
    }

    /// Attempts to create a new Matrix user ID from a string
    /// representation.
    ///
    /// The string must include the leading `@` sigil, the localpart, a
    /// literal colon, and a valid server name; the localpart must satisfy
    /// the restricted character set `[a-z0-9._=-]+`.
    pub fn try_from(user_id: &str) -> (r: Result<Self, Error>)
        ensures
            match r {
                Ok(id) => {
                    &&& spec_parse_user_id(user_id@) == Ok::<_, Error>(
                        (id@.local, id@.host, id@.port),
                    )
                    &&& byte_len(id.spec_str()) <= MAX_BYTES && id.spec_str().len() >= MIN_CHARS
                        ==> spec_parse_id('@', id.spec_str()) == Ok::<_, Error>(
                        (id@.local, id@.host, id@.port),
                    )
                },
                Err(e) => spec_parse_user_id(user_id@) == Err::<(Seq<char>, Seq<char>, u16), _>(e),
            },
    {
        match parse_id('@', user_id) {
            Ok(parts) => {
                let localpart = match UserLocalpart::try_from(parts.0.as_str()) {
                    Ok(lp) => lp,
                    Err(e) => {
                        return Err(e);
                    },
                };
                let id = UserId { hostname: Host { inner: parts.1 }, localpart, port: parts.2 };
                proof {
                    if byte_len(id.spec_str()) <= MAX_BYTES && id.spec_str().len() >= MIN_CHARS {
                        lemma_parse_format_round_trip('@', user_id@, id@.local, id@.host, id@.port);
                    }
                }
                Ok(id)
            },
            Err(e) => Err(e),
        }
    }

    /// Returns a `Host` for the user ID, containing the server name (minus
    /// the port) of the originating homeserver.
    pub fn hostname(&self) -> (r: &Host)
        ensures
            r@ == self@.host,
    {
        &self.hostname
    }

    /// Returns the user's localpart.
    pub fn localpart(&self) -> (r: &UserLocalpart)
        ensures
            r@ == self@.local,
    {
        &self.localpart
    }

    /// Returns the port the originating homeserver can be accessed on.
    pub fn port(&self) -> (r: u16)
        ensures
            r == self@.port,
    {
        self.port
    }

    /// The canonical string form: the default port is never rendered.
    pub fn to_string(&self) -> (r: String)
        ensures
            r@ == self.spec_str(),
    {
        proof {
            reveal_strlit("@");
        }
        format_id("@", self.localpart.as_str(), self.hostname.as_str(), self.port)
    }
}

impl UserLocalpart {
    /// Generates a `UserLocalpart` consisting of 12 random ASCII
    /// characters.
    pub fn new() -> (r: Self)
        ensures
            r@.len() == 12,
            is_alnum_seq(r@),
    {
        UserLocalpart { inner: random_alphanumeric(12) }
    }

    /// Returns the localpart as a string slice.
    pub fn as_str(&self) -> (r: &str)
        ensures
            r@ == self@,
    {
        self.inner.as_str()
    }

    /// Attempts to create a new Matrix user ID localpart from a string
    /// representation: accepted exactly when the string is nonempty and
    /// every character is in `[a-z0-9._=-]`.
    pub fn try_from(localpart: &str) -> (r: Result<Self, Error>)
        ensures
            match r {
                Ok(lp) => is_valid_localpart(localpart@) && lp@ == localpart@,
                Err(e) => !is_valid_localpart(localpart@) && e == Error::InvalidCharacters,
            },
    {
        if !crate::chars::is_localpart_str(localpart) {
            return Err(Error::InvalidCharacters);
        }
        Ok(UserLocalpart { inner: localpart.to_owned() })
    }
}

} // verus!
