use std::cmp::Ordering;

use vstd::prelude::*;
use vstd::std_specs::cmp::PartialOrdSpecImpl;
use vstd::utf8::encode_utf8;

use crate::lexicographic::{
    compare_bytes, lemma_lex_antisymmetric, lemma_lex_first_difference_decides,
    lemma_lex_proper_prefix_first, lemma_lex_reflexive, lemma_lex_same_is_equal,
    lemma_lex_transitive, lex_precedence, Precedence,
};

verus! {

/// Used to control breaking change behavior for stored settings.
///
/// There were already three non-breaking version bumps (V1 to V4), so versioning
/// starts off with [`Version::V5`].
#[derive(Debug, Clone, PartialEq, Eq, Ord)]
pub enum Version {
    /// Implicitly versioned settings from before this type was introduced.
    V0,
    /// M2 is no longer appended to the program by default.
    V5,
    /// A version this library does not know about.
    Unknown(String),
}

/// The mathematical model of a [`Version`]: the text of an unknown version is
/// kept as a sequence of characters.
pub enum VersionView {
    V0,
    V5,
    Unknown(Seq<char>),
}

impl View for Version {
    type V = VersionView;

    open spec fn view(&self) -> VersionView {
        match self {
            Version::V0 => VersionView::V0,
            Version::V5 => VersionView::V5,
            Version::Unknown(s) => VersionView::Unknown(s@),
        }
    }
}

impl VersionView {
    /// The most recent version known to this library.
    pub open spec fn latest() -> VersionView {
        VersionView::V5
    }

    /// The position of a version's kind in the order of versions: V0, then V5,
    /// then every unknown version.
    pub open spec fn rank(self) -> int {
        match self {
            VersionView::V0 => 0,
            VersionView::V5 => 1,
            VersionView::Unknown(_) => 2,
        }
    }

    /// The order of versions: by kind first, and two unknown versions by the
    /// lexicographic order of their UTF-8 text.
    pub open spec fn order(self, other: VersionView) -> Ordering {
        if self.rank() < other.rank() {
            Ordering::Less
        } else if self.rank() > other.rank() {
            Ordering::Greater
        } else {
            match (self, other) {
                (VersionView::Unknown(a), VersionView::Unknown(b)) => match lex_precedence(
                    encode_utf8(a),
                    encode_utf8(b),
                ) {
                    Precedence::Before => Ordering::Less,
                    Precedence::Same => Ordering::Equal,
                    Precedence::After => Ordering::Greater,
                },
                _ => Ordering::Equal,
            }
        }
    }

    /// The textual form of a version: its name, or the unknown text verbatim.
    pub open spec fn label(self) -> Seq<char> {
        match self {
            VersionView::V0 => "V0"@,
            VersionView::V5 => "V5"@,
            VersionView::Unknown(s) => s,
        }
    }
}

impl Version {
    /// Returns the most recent [`Version`]. This is useful for asking users to
    /// upgrade externally-stored settings.
    pub fn latest() -> (v: Self)
        ensures
            v@ == VersionView::latest(),
    {
        Version::V5
    }

    /// Default version for old settings that carry no version at all.
    pub fn unknown() -> (v: Self)
        ensures
            v@ == VersionView::V0,
    {
        Version::V0
    }

    /// The textual form of this version: `V0`, `V5`, or the unknown text itself.
    pub fn to_string(&self) -> (s: String)
        ensures
            s@ == self@.label(),
            *self is V0 ==> s@ == "V0"@,
            *self is V5 ==> s@ == "V5"@,
            self matches Version::Unknown(text) ==> s@ == text@,
    {
        match self {
            Version::V0 => "V0".to_owned(),
            Version::V5 => "V5".to_owned(),
            Version::Unknown(unknown) => unknown.clone(),
        }
    }
}

impl Default for Version {
    /// Freshly created settings are at the most recent version.
    fn default() -> (v: Self)
        ensures
            v@ == VersionView::latest(),
    {
        Version::latest()
    }
}

impl PartialOrd for Version {
    /// Versions are ordered V0, then V5, then every unknown version; two
    /// unknown versions are ordered by their text.
    fn partial_cmp(&self, other: &Version) -> (r: Option<Ordering>) {
        match self {
            Version::V0 => match other {
                Version::V0 => Some(Ordering::Equal),
                _ => Some(Ordering::Less),
            },
            Version::V5 => match other {
                Version::V0 => Some(Ordering::Greater),
                Version::V5 => Some(Ordering::Equal),
                Version::Unknown(_) => Some(Ordering::Less),
            },
            Version::Unknown(a) => match other {
                Version::Unknown(b) => match compare_bytes(a.as_str().as_bytes(), b.as_str().as_bytes()) {
                    Precedence::Before => Some(Ordering::Less),
                    Precedence::Same => Some(Ordering::Equal),
                    Precedence::After => Some(Ordering::Greater),
                },
                _ => Some(Ordering::Greater),
            },
        }
    }
}

impl PartialOrdSpecImpl for Version {
    open spec fn obeys_partial_cmp_spec() -> bool {
        true
    }

    open spec fn partial_cmp_spec(&self, other: &Version) -> Option<Ordering> {
        Some(self@.order(other@))
    }
}

/// The most recent version is newer than V0, and every unknown version sorts
/// after it.
pub proof fn lemma_latest_is_newest_known(unknown: Seq<char>)
    ensures
        VersionView::V0.order(VersionView::latest()) == Ordering::Less,
        VersionView::latest().order(VersionView::Unknown(unknown)) == Ordering::Less,
{
}

/// Every version is level with itself, and only with itself.
pub proof fn lemma_version_order_equal(a: VersionView, b: VersionView)
    ensures
        a.order(a) == Ordering::Equal,
        a.order(b) == Ordering::Equal <==> a == b,
{
    match (a, b) {
        (VersionView::Unknown(x), VersionView::Unknown(y)) => {
            lemma_lex_reflexive(encode_utf8(x));
            if a.order(b) == Ordering::Equal {
                lemma_lex_same_is_equal(encode_utf8(x), encode_utf8(y));
                vstd::utf8::encode_utf8_decode_utf8(x);
                vstd::utf8::encode_utf8_decode_utf8(y);
            }
        },
        (VersionView::Unknown(x), _) => {
            lemma_lex_reflexive(encode_utf8(x));
        },
        _ => {},
    }
}

/// Swapping two versions swaps the outcome of comparing them.
pub proof fn lemma_version_order_antisymmetric(a: VersionView, b: VersionView)
    ensures
        a.order(b) == Ordering::Less <==> b.order(a) == Ordering::Greater,
        a.order(b) == Ordering::Equal <==> b.order(a) == Ordering::Equal,
{
    if let (VersionView::Unknown(x), VersionView::Unknown(y)) = (a, b) {
        lemma_lex_antisymmetric(encode_utf8(x), encode_utf8(y));
    }
}

/// The order of versions is transitive.
pub proof fn lemma_version_order_transitive(a: VersionView, b: VersionView, c: VersionView)
    requires
        a.order(b) == Ordering::Less,
        b.order(c) == Ordering::Less,
    ensures
        a.order(c) == Ordering::Less,
{
    if let (VersionView::Unknown(x), VersionView::Unknown(y), VersionView::Unknown(z)) = (a, b, c) {
        lemma_lex_transitive(encode_utf8(x), encode_utf8(y), encode_utf8(z));
    }
}

/// The text of a version: the names `V0` and `V5`, and the stored text of an
/// unknown version verbatim, whatever its length or characters.
pub proof fn lemma_label_is_verbatim(text: Seq<char>)
    ensures
        VersionView::V0.label() == "V0"@,
        VersionView::V5.label() == "V5"@,
        VersionView::Unknown(text).label() == text,
{
}

/// Versions of different kinds are ordered V0, then V5, then every unknown
/// version, whatever the unknown text.
pub proof fn lemma_version_kinds_ordered(text: Seq<char>)
    ensures
        VersionView::V0.order(VersionView::V5) == Ordering::Less,
        VersionView::V5.order(VersionView::V0) == Ordering::Greater,
        VersionView::V0.order(VersionView::Unknown(text)) == Ordering::Less,
        VersionView::Unknown(text).order(VersionView::V0) == Ordering::Greater,
        VersionView::V5.order(VersionView::Unknown(text)) == Ordering::Less,
        VersionView::Unknown(text).order(VersionView::V5) == Ordering::Greater,
        VersionView::V0.order(VersionView::V0) == Ordering::Equal,
        VersionView::V5.order(VersionView::V5) == Ordering::Equal,
{
}

/// Two unknown versions compare as their texts do under the order of strings:
/// where the UTF-8 encodings first differ, the text with the numerically
/// smaller byte is the older version.
pub proof fn lemma_unknown_first_differing_byte_decides(x: Seq<char>, y: Seq<char>, i: int)
    requires
        0 <= i < encode_utf8(x).len(),
        i < encode_utf8(y).len(),
        forall|k: int| 0 <= k < i ==> encode_utf8(x)[k] == encode_utf8(y)[k],
        encode_utf8(x)[i] < encode_utf8(y)[i],
    ensures
        VersionView::Unknown(x).order(VersionView::Unknown(y)) == Ordering::Less,
        VersionView::Unknown(y).order(VersionView::Unknown(x)) == Ordering::Greater,
{
    lemma_lex_first_difference_decides(encode_utf8(x), encode_utf8(y), i);
}

/// An unknown version whose UTF-8 text is a proper prefix of another's is the
/// older of the two.
pub proof fn lemma_unknown_prefix_is_older(x: Seq<char>, y: Seq<char>)
    requires
        encode_utf8(x).len() < encode_utf8(y).len(),
        forall|k: int| 0 <= k < encode_utf8(x).len() ==> encode_utf8(x)[k] == encode_utf8(y)[k],
    ensures
        VersionView::Unknown(x).order(VersionView::Unknown(y)) == Ordering::Less,
        VersionView::Unknown(y).order(VersionView::Unknown(x)) == Ordering::Greater,
{
    lemma_lex_proper_prefix_first(encode_utf8(x), encode_utf8(y));
}

} // verus!
