//! Matrix room version identifiers: five official versions or a custom
//! version string of 1 to 32 code points.

use vstd::prelude::*;

use crate::error::Error;

verus! {

/// Room version identifiers cannot be more than 32 code points.
pub const MAX_CODE_POINTS: usize = 32;

/// The mathematical content of a room version ID: whether it is a custom
/// version, and its textual rendering (`"1"`–`"5"` for the official
/// versions, the stored string otherwise).
pub ghost struct RoomVersionIdView {
    pub is_custom: bool,
    pub text: Seq<char>,
}

/// Possible values for a room version, distinguishing the five official
/// versions from custom versions.
#[derive(Clone, Debug, Eq, Hash, PartialEq)]
enum InnerRoomVersionId {
    /// A version 1 room.
    Version1,
    /// A version 2 room.
    Version2,
    /// A version 3 room.
    Version3,
    /// A version 4 room.
    Version4,
    /// A version 5 room.
    Version5,
    /// A custom room version.
    Custom(String),
}

/// A Matrix room version ID.
///
/// A `RoomVersionId` is converted from a string slice, and can be
/// converted back into a string as needed.
#[derive(Clone, Debug, Eq, Hash)]
pub struct RoomVersionId {
    inner: InnerRoomVersionId,
}

impl PartialEq for RoomVersionId {
    /// Two room version IDs are equal exactly when they are the same
    /// official version, or both custom with equal strings.
    fn eq(&self, other: &RoomVersionId) -> (r: bool) {
        proof {
            lemma_official_texts_distinct();
        }
        match (&self.inner, &other.inner) {
            (InnerRoomVersionId::Version1, InnerRoomVersionId::Version1) => true,
            (InnerRoomVersionId::Version2, InnerRoomVersionId::Version2) => true,
            (InnerRoomVersionId::Version3, InnerRoomVersionId::Version3) => true,
            (InnerRoomVersionId::Version4, InnerRoomVersionId::Version4) => true,
            (InnerRoomVersionId::Version5, InnerRoomVersionId::Version5) => true,
            (InnerRoomVersionId::Custom(a), InnerRoomVersionId::Custom(b)) => *a == *b,
            _ => false,
        }
    }
}

impl vstd::std_specs::cmp::PartialEqSpecImpl for RoomVersionId {
    open spec fn obeys_eq_spec() -> bool {
        true
    }

    open spec fn eq_spec(&self, other: &RoomVersionId) -> bool {
        self@ == other@
    }
}

impl View for RoomVersionId {
    type V = RoomVersionIdView;

    closed spec fn view(&self) -> RoomVersionIdView {
        match self.inner {
            InnerRoomVersionId::Version1 => RoomVersionIdView {
                is_custom: false,
                text: seq!['1'],
            },
            InnerRoomVersionId::Version2 => RoomVersionIdView {
                is_custom: false,
                text: seq!['2'],
            },
            InnerRoomVersionId::Version3 => RoomVersionIdView {
                is_custom: false,
                text: seq!['3'],
            },
            InnerRoomVersionId::Version4 => RoomVersionIdView {
                is_custom: false,
                text: seq!['4'],
            },
            InnerRoomVersionId::Version5 => RoomVersionIdView {
                is_custom: false,
                text: seq!['5'],
            },
            InnerRoomVersionId::Custom(s) => RoomVersionIdView { is_custom: true, text: s@ },
        }
    }
}

/// The room version grammar: an input equal to one of the five official
/// literals yields the corresponding official version; otherwise an empty
/// input is too short, an input of more than 32 code points is too long,
/// and anything else becomes a custom version holding the input unchanged.
pub open spec fn spec_parse_room_version(s: Seq<char>) -> Result<RoomVersionIdView, Error> {
    if s == seq!['1'] {
        Ok(RoomVersionIdView { is_custom: false, text: seq!['1'] })
    } else if s == seq!['2'] {
        Ok(RoomVersionIdView { is_custom: false, text: seq!['2'] })
    } else if s == seq!['3'] {
        Ok(RoomVersionIdView { is_custom: false, text: seq!['3'] })
    } else if s == seq!['4'] {
        Ok(RoomVersionIdView { is_custom: false, text: seq!['4'] })
    } else if s == seq!['5'] {
        Ok(RoomVersionIdView { is_custom: false, text: seq!['5'] })
    } else if s.len() == 0 {
        Err(Error::MinimumLengthNotSatisfied)
    } else if s.len() > MAX_CODE_POINTS {
        Err(Error::MaximumLengthExceeded)
    } else {
        Ok(RoomVersionIdView { is_custom: true, text: s })
    }
}

impl RoomVersionId {
    /// Creates a version 1 room ID.
    pub fn version_1() -> (r: Self)
        ensures
            r@ == (RoomVersionIdView { is_custom: false, text: seq!['1'] }),
    {
        RoomVersionId { inner: InnerRoomVersionId::Version1 }
    }

    /// Creates a version 2 room ID.
    pub fn version_2() -> (r: Self)
        ensures
            r@ == (RoomVersionIdView { is_custom: false, text: seq!['2'] }),
    {
        RoomVersionId { inner: InnerRoomVersionId::Version2 }
    }

    /// Creates a version 3 room ID.
    pub fn version_3() -> (r: Self)
        ensures
            r@ == (RoomVersionIdView { is_custom: false, text: seq!['3'] }),
    {
        RoomVersionId { inner: InnerRoomVersionId::Version3 }
    }

    /// Creates a version 4 room ID.
    pub fn version_4() -> (r: Self)
        ensures
            r@ == (RoomVersionIdView { is_custom: false, text: seq!['4'] }),
    {
        RoomVersionId { inner: InnerRoomVersionId::Version4 }
    }

    /// Creates a version 5 room ID.
    pub fn version_5() -> (r: Self)
        ensures
            r@ == (RoomVersionIdView { is_custom: false, text: seq!['5'] }),
    {
        RoomVersionId { inner: InnerRoomVersionId::Version5 }
    }

    /// Creates a custom room version ID from the given string slice.
    ///
    /// No length validation is performed here; only parsing enforces the
    /// 1–32 code point bound.
    pub fn custom(id: &str) -> (r: Self)
        ensures
            r@ == (RoomVersionIdView { is_custom: true, text: id@ }),
    {
        RoomVersionId { inner: InnerRoomVersionId::Custom(id.to_owned()) }
    }

    /// Whether or not this room version is an official one specified by
    /// the Matrix protocol.
    pub fn is_official(&self) -> (r: bool)
        ensures
            r == !self@.is_custom,
    {
        !self.is_custom()
    }

    /// Whether or not this is a custom room version.
    pub fn is_custom(&self) -> (r: bool)
        ensures
            r == self@.is_custom,
    {
        match &self.inner {
            InnerRoomVersionId::Custom(_) => true,
            _ => false,
        }
    }

    /// Whether or not this is a version 1 room.
    pub fn is_version_1(&self) -> (r: bool)
        ensures
            r == (!self@.is_custom && self@.text == seq!['1']),
    {
        proof {
            lemma_official_texts_distinct();
        }
        match &self.inner {
            InnerRoomVersionId::Version1 => true,
            _ => false,
        }
    }

    /// Whether or not this is a version 2 room.
    pub fn is_version_2(&self) -> (r: bool)
        ensures
            r == (!self@.is_custom && self@.text == seq!['2']),
    {
        proof {
            lemma_official_texts_distinct();
        }
        match &self.inner {
            InnerRoomVersionId::Version2 => true,
            _ => false,
        }
    }

    /// Whether or not this is a version 3 room.
    pub fn is_version_3(&self) -> (r: bool)
        ensures
            r == (!self@.is_custom && self@.text == seq!['3']),
    {
        proof {
            lemma_official_texts_distinct();
        }
        match &self.inner {
            InnerRoomVersionId::Version3 => true,
            _ => false,
        }
    }

    /// Whether or not this is a version 4 room.
    pub fn is_version_4(&self) -> (r: bool)
        ensures
            r == (!self@.is_custom && self@.text == seq!['4']),
    {
        proof {
            lemma_official_texts_distinct();
        }
        match &self.inner {
            InnerRoomVersionId::Version4 => true,
            _ => false,
        }
    }

    /// Whether or not this is a version 5 room.
    pub fn is_version_5(&self) -> (r: bool)
        ensures
            r == (!self@.is_custom && self@.text == seq!['5']),
    {
        proof {
            lemma_official_texts_distinct();
        }
        match &self.inner {
            InnerRoomVersionId::Version5 => true,
            _ => false,
        }
    }

    /// Attempts to create a new Matrix room version ID from a string
    /// representation.
    pub fn try_from(room_version_id: &str) -> (r: Result<Self, Error>)
        ensures
            match r {
                Ok(v) => spec_parse_room_version(room_version_id@) == Ok::<_, Error>(v@),
                Err(e) => spec_parse_room_version(room_version_id@) == Err::<
                    RoomVersionIdView,
                    _,
                >(e),
            },
    {
        let n: usize = room_version_id.unicode_len();
        if n == 1 {
            let c = room_version_id.get_char(0);
            proof {
                assert(room_version_id@ =~= seq![room_version_id@[0]]);
            }
            if c == '1' {
                return Ok(RoomVersionId { inner: InnerRoomVersionId::Version1 });
            }
            if c == '2' {
                return Ok(RoomVersionId { inner: InnerRoomVersionId::Version2 });
            }
            if c == '3' {
                return Ok(RoomVersionId { inner: InnerRoomVersionId::Version3 });
            }
            if c == '4' {
                return Ok(RoomVersionId { inner: InnerRoomVersionId::Version4 });
            }
            if c == '5' {
                return Ok(RoomVersionId { inner: InnerRoomVersionId::Version5 });
            }
        }
        if n == 0 {
            return Err(Error::MinimumLengthNotSatisfied);
        }
        if n > MAX_CODE_POINTS {
            return Err(Error::MaximumLengthExceeded);
        }
        Ok(RoomVersionId { inner: InnerRoomVersionId::Custom(room_version_id.to_owned()) })
    }

    /// The canonical string form: `"1"`–`"5"` for the official versions,
    /// the stored string for custom versions.
    pub fn to_string(&self) -> (r: String)
        ensures
            r@ == self@.text,
    {
        match &self.inner {
            InnerRoomVersionId::Version1 => {
                let s = String::from_str("1");
                proof {
                    reveal_strlit("1");
                    assert(s@ =~= seq!['1']);
                }
                s
            },
            InnerRoomVersionId::Version2 => {
                let s = String::from_str("2");
                proof {
                    reveal_strlit("2");
                    assert(s@ =~= seq!['2']);
                }
                s
            },
            InnerRoomVersionId::Version3 => {
                let s = String::from_str("3");
                proof {
                    reveal_strlit("3");
                    assert(s@ =~= seq!['3']);
                }
                s
            },
            InnerRoomVersionId::Version4 => {
                let s = String::from_str("4");
                proof {
                    reveal_strlit("4");
                    assert(s@ =~= seq!['4']);
                }
                s
            },
            InnerRoomVersionId::Version5 => {
                let s = String::from_str("5");
                proof {
                    reveal_strlit("5");
                    assert(s@ =~= seq!['5']);
                }
                s
            },
            InnerRoomVersionId::Custom(s) => s.clone(),
        }
    }
}

/// Singleton sequences of distinct characters are distinct.
proof fn lemma_singletons_distinct(a: char, b: char)
    requires
        a != b,
    ensures
        seq![a] != seq![b],
{
    assert(seq![a][0] == a);
    assert(seq![b][0] == b);
    if seq![a] == seq![b] {
        assert(seq![a][0] == seq![b][0]);
    }
}

/// The five official version texts are pairwise distinct single-character
/// sequences.
proof fn lemma_official_texts_distinct()
    ensures
        seq!['1'][0] == '1',
        seq!['2'][0] == '2',
        seq!['3'][0] == '3',
        seq!['4'][0] == '4',
        seq!['5'][0] == '5',
        seq!['1'] != seq!['2'],
        seq!['1'] != seq!['3'],
        seq!['1'] != seq!['4'],
        seq!['1'] != seq!['5'],
        seq!['2'] != seq!['3'],
        seq!['2'] != seq!['4'],
        seq!['2'] != seq!['5'],
        seq!['3'] != seq!['4'],
        seq!['3'] != seq!['5'],
        seq!['4'] != seq!['5'],
{
    lemma_singletons_distinct('1', '2');
    lemma_singletons_distinct('1', '3');
    lemma_singletons_distinct('1', '4');
    lemma_singletons_distinct('1', '5');
    lemma_singletons_distinct('2', '3');
    lemma_singletons_distinct('2', '4');
    lemma_singletons_distinct('2', '5');
    lemma_singletons_distinct('3', '4');
    lemma_singletons_distinct('3', '5');
    lemma_singletons_distinct('4', '5');
}

} // verus!
