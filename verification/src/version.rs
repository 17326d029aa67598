//! Tool versions of the form `mayor.minor[.patch]`.
use vstd::prelude::*;
use crate::text::{
    digits_and_dots, is_digit, dec, lemma_dec_roundtrip, lemma_parse_dec, lemma_split_plain, lemma_split_then, parse_u32,
    parse_u32_str, push_decimal, split, split_str,
};

verus! {

/// The version of a tool.
#[derive(Debug, Clone, Copy, PartialEq, Eq, Structural, PartialOrd, Ord, Hash)]
pub struct Version {
    mayor: u32,
    minor: u32,
    patch: Option<u32>,
}

/// Why a version string was refused.
#[derive(Debug, Clone, Copy, PartialEq, Eq, Structural)]
pub enum VersionError {
    /// The string does not have two or three parts separated by `.`.
    PartCount,
    /// The first part is not a 32 bit decimal number.
    InvalidMayor,
    /// The second part is not a 32 bit decimal number.
    InvalidMinor,
    /// The third part is not a 32 bit decimal number.
    InvalidPatch,
}

impl VersionError {
    /// The description of the error.
    pub open spec fn spec_message(self) -> Seq<char> {
        match self {
            VersionError::PartCount => "invalid string, expected at least 3 digits"@,
            VersionError::InvalidMayor => "invalid `mayor` in version string"@,
            VersionError::InvalidMinor => "invalid `minor` in version string"@,
            VersionError::InvalidPatch => "invalid `patch` in version string"@,
        }
    }

    /// A description of the error.
    pub fn message(&self) -> (r: &'static str)
        ensures
            r@ == self.spec_message(),
    {
        match self {
            VersionError::PartCount => "invalid string, expected at least 3 digits",
            VersionError::InvalidMayor => "invalid `mayor` in version string",
            VersionError::InvalidMinor => "invalid `minor` in version string",
            VersionError::InvalidPatch => "invalid `patch` in version string",
        }
    }
}

impl Version {
    /// The first number.
    pub closed spec fn spec_mayor(self) -> u32 {
        self.mayor
    }

    /// The second number.
    pub closed spec fn spec_minor(self) -> u32 {
        self.minor
    }

    /// The third number, if there is one.
    pub closed spec fn spec_patch(self) -> Option<u32> {
        self.patch
    }

    /// The version with the given numbers.
    pub closed spec fn make(mayor: u32, minor: u32, patch: Option<u32>) -> Version {
        Version { mayor, minor, patch }
    }

    /// Constructs a version.
    pub fn new(mayor: u32, minor: u32, patch: Option<u32>) -> (v: Self)
        ensures
            v == Version::make(mayor, minor, patch),
            v.spec_mayor() == mayor,
            v.spec_minor() == minor,
            v.spec_patch() == patch,
    {
        Version { mayor, minor, patch }
    }

    /// The first number.
    pub fn mayor(&self) -> (r: u32)
        ensures
            r == self.spec_mayor(),
    {
        self.mayor
    }

    /// The second number.
    pub fn minor(&self) -> (r: u32)
        ensures
            r == self.spec_minor(),
    {
        self.minor
    }

    /// The third number, if there is one.
    pub fn patch(&self) -> (r: Option<u32>)
        ensures
            r == self.spec_patch(),
    {
        self.patch
    }

    /// The text of a version: `mayor.minor` or `mayor.minor.patch`.
    pub open spec fn spec_to_string(self) -> Seq<char> {
        let base = dec(self.spec_mayor() as nat) + seq!['.'] + dec(self.spec_minor() as nat);
        match self.spec_patch() {
            Some(p) => base + seq!['.'] + dec(p as nat),
            None => base,
        }
    }

    /// Formats the version as `mayor.minor` or `mayor.minor.patch`.
    pub fn to_string(&self) -> (r: String)
        ensures
            r@ == self.spec_to_string(),
    {
        let mut s = String::new();
        push_decimal(&mut s, self.mayor);
        s.append(dot());
        push_decimal(&mut s, self.minor);
        match self.patch {
            Some(p) => {
                s.append(dot());
                push_decimal(&mut s, p);
            },
            None => {},
        }
        s
    }

    /// What `Version::from_str` gives for a string: it is split at every
    /// `.`, must have two or three parts, and each part must parse as a `u32`.
    pub open spec fn spec_from_str(s: Seq<char>) -> Result<Version, VersionError> {
        let parts = split(s, '.');
        if !(2 <= parts.len() <= 3) {
            Err(VersionError::PartCount)
        } else if parse_u32(parts[0]) is None {
            Err(VersionError::InvalidMayor)
        } else if parse_u32(parts[1]) is None {
            Err(VersionError::InvalidMinor)
        } else if parts.len() == 3 && parse_u32(parts[2]) is None {
            Err(VersionError::InvalidPatch)
        } else {
            Ok(
                Version::make(
                    parse_u32(parts[0]).unwrap(),
                    parse_u32(parts[1]).unwrap(),
                    if parts.len() == 3 {
                        Some(parse_u32(parts[2]).unwrap())
                    } else {
                        None
                    },
                ),
            )
        }
    }

    /// Parses a version string such as `16.20.0` or `3.3`.
    pub fn from_str(s: &str) -> (r: Result<Version, VersionError>)
        ensures
            r == Version::spec_from_str(s@),
    {
        let parts = split_str(s, '.');
        let ghost views = parts@.map_values(|x: &str| x@);
        assert(views.len() == parts@.len());
        if parts.len() < 2 || parts.len() > 3 {
            return Err(VersionError::PartCount);
        }
        assert(views[0] == parts@[0]@);
        assert(views[1] == parts@[1]@);
        let mayor = match parse_u32_str(parts[0]) {
            Some(v) => v,
            None => {
                return Err(VersionError::InvalidMayor);
            },
        };
        let minor = match parse_u32_str(parts[1]) {
            Some(v) => v,
            None => {
                return Err(VersionError::InvalidMinor);
            },
        };
        let patch = if parts.len() == 3 {
            assert(views[2] == parts@[2]@);
            match parse_u32_str(parts[2]) {
                Some(v) => Some(v),
                None => {
                    return Err(VersionError::InvalidPatch);
                },
            }
        } else {
            None
        };
        Ok(Version { mayor, minor, patch })
    }

    /// `a <= b` in the order `Version` derives: by `mayor`, then `minor`,
    /// then `patch`, where a missing patch comes before any patch.
    pub open spec fn le(a: Version, b: Version) -> bool {
        ||| a.spec_mayor() < b.spec_mayor()
        ||| a.spec_mayor() == b.spec_mayor() && a.spec_minor() < b.spec_minor()
        ||| a.spec_mayor() == b.spec_mayor() && a.spec_minor() == b.spec_minor() && match (
            a.spec_patch(),
            b.spec_patch(),
        ) {
            (None, _) => true,
            (Some(_), None) => false,
            (Some(x), Some(y)) => x <= y,
        }
    }

    /// Whether `self >= other`.
    pub fn is_at_least(&self, other: &Version) -> (r: bool)
        ensures
            r == Version::le(*other, *self),
    {
        if self.mayor != other.mayor {
            return self.mayor > other.mayor;
        }
        if self.minor != other.minor {
            return self.minor > other.minor;
        }
        match (other.patch, self.patch) {
            (None, _) => true,
            (Some(_), None) => false,
            (Some(x), Some(y)) => x <= y,
        }
    }

    /// Whether two versions are the same.
    pub fn same_as(&self, other: &Version) -> (r: bool)
        ensures
            r == (*self == *other),
    {
        self.mayor == other.mayor && self.minor == other.minor && match (self.patch, other.patch) {
            (None, None) => true,
            (Some(x), Some(y)) => x == y,
            _ => false,
        }
    }
}

/// Reading back the text of a version gives the version.
pub proof fn lemma_version_string_roundtrip(v: Version)
    ensures
        Version::spec_from_str(v.spec_to_string()) == Ok::<Version, VersionError>(v),
{
    lemma_dec_roundtrip(v.mayor as nat);
    lemma_dec_roundtrip(v.minor as nat);
    lemma_parse_dec(v.mayor);
    lemma_parse_dec(v.minor);
    let a = dec(v.mayor as nat);
    let b = dec(v.minor as nat);
    lemma_split_plain(a, '.');
    lemma_split_then(a, b, '.');
    match v.patch {
        Some(p) => {
            lemma_dec_roundtrip(p as nat);
            lemma_parse_dec(p);
            lemma_split_then(a + seq!['.'] + b, dec(p as nat), '.');
        },
        None => {},
    }
}

/// The numbers of a version made from numbers are those numbers, and a
/// version is the one made from its numbers.
pub proof fn lemma_version_make(mayor: u32, minor: u32, patch: Option<u32>, v: Version)
    ensures
        Version::make(mayor, minor, patch).spec_mayor() == mayor,
        Version::make(mayor, minor, patch).spec_minor() == minor,
        Version::make(mayor, minor, patch).spec_patch() == patch,
        v == Version::make(v.spec_mayor(), v.spec_minor(), v.spec_patch()),
{
}

/// Versions are ordered by `mayor`, then `minor`, then `patch`, where a
/// missing patch comes before any patch; two versions are the same exactly
/// when their three numbers are.
pub proof fn lemma_version_order(
    a: u32,
    b: u32,
    p: Option<u32>,
    c: u32,
    d: u32,
    q: Option<u32>,
)
    ensures
        Version::le(Version::make(a, b, p), Version::make(c, d, q)) <==> ({
            ||| a < c
            ||| a == c && b < d
            ||| a == c && b == d && match (p, q) {
                (None, _) => true,
                (Some(_), None) => false,
                (Some(x), Some(y)) => x <= y,
            }
        }),
        (Version::make(a, b, p) == Version::make(c, d, q)) <==> (a == c && b == d && p == q),
{
}

/// The version order is reflexive.
pub proof fn lemma_version_le_reflexive(a: Version)
    ensures
        Version::le(a, a),
{
}

/// The version order is transitive.
pub proof fn lemma_version_le_transitive(a: Version, b: Version, c: Version)
    requires
        Version::le(a, b),
        Version::le(b, c),
    ensures
        Version::le(a, c),
{
}

/// Two versions each at most the other are the same version.
pub proof fn lemma_version_le_antisymmetric(a: Version, b: Version)
    requires
        Version::le(a, b),
        Version::le(b, a),
    ensures
        a == b,
{
}

/// Any two versions are ordered one way or the other.
pub proof fn lemma_version_le_total(a: Version, b: Version)
    ensures
        Version::le(a, b) || Version::le(b, a),
{
}

/// The text `.`.
fn dot() -> (r: &'static str)
    ensures
        r@ == seq!['.'],
{
    proof {
        reveal_strlit(".");
    }
    "."
}

/// The text of a version is made of digits and dots, and starts and ends
/// with a digit.
pub proof fn lemma_version_text(v: Version)
    ensures
        v.spec_to_string().len() > 0,
        digits_and_dots(v.spec_to_string()),
        is_digit(v.spec_to_string()[0]),
        is_digit(v.spec_to_string().last()),
{
    lemma_dec_roundtrip(v.mayor as nat);
    lemma_dec_roundtrip(v.minor as nat);
    let a = dec(v.mayor as nat);
    let b = dec(v.minor as nat);
    let base = a + seq!['.'] + b;
    assert(digits_and_dots(base)) by {
        assert forall|i: int| 0 <= i < base.len() implies is_digit(#[trigger] base[i]) || base[i] == '.' by {
            if i < a.len() {
                assert(base[i] == a[i]);
            } else if i == a.len() {
                assert(base[i] == '.');
            } else {
                assert(base[i] == b[i - a.len() - 1]);
            }
        }
    }
    assert(base[0] == a[0]);
    assert(base.last() == b.last());
    assert(b.last() == b[b.len() - 1]);
    match v.patch {
        Some(p) => {
            lemma_dec_roundtrip(p as nat);
            let c = dec(p as nat);
            let t = base + seq!['.'] + c;
            assert forall|i: int| 0 <= i < t.len() implies is_digit(#[trigger] t[i]) || t[i] == '.' by {
                if i < base.len() {
                    assert(t[i] == base[i]);
                } else if i == base.len() {
                    assert(t[i] == '.');
                } else {
                    assert(t[i] == c[i - base.len() - 1]);
                }
            }
            assert(t[0] == base[0]);
            assert(t.last() == c.last());
            assert(c.last() == c[c.len() - 1]);
        },
        None => {},
    }
}

} // verus!
