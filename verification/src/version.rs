//! Host-runtime version probing: the parsed API version, the comparison
//! gates derived from it, and the capabilities a version enables.
//!
//! The probe itself (asking the installed host runtime for its
//! configuration) is a one-shot, build-time side effect that lives outside
//! this library; it hands the raw version bytes in, and takes the parsed
//! version and its gates back.

use vstd::prelude::*;

verus! {

/// A host API version, `major.minor`.
#[derive(Clone, Copy, PartialEq, Eq, Structural, Debug)]
pub struct ApiVersion {
    /// Major version number.
    pub major: u8,
    /// Minor version number.
    pub minor: u8,
}

/// The five comparison gates of one installed version against one pivot
/// version, as the build-time probe publishes them.
#[derive(Clone, Copy, PartialEq, Eq, Structural, Debug)]
pub struct VersionGate {
    /// Installed version is strictly below the pivot.
    pub lt: bool,
    /// Installed version is at or below the pivot.
    pub lte: bool,
    /// Installed version equals the pivot.
    pub eq: bool,
    /// Installed version is at or above the pivot.
    pub gte: bool,
    /// Installed version is strictly above the pivot.
    pub gt: bool,
}

impl ApiVersion {
    /// This version is strictly below `other`, ordering by major then minor.
    pub open spec fn spec_lt(self, other: ApiVersion) -> bool {
        self.major < other.major || (self.major == other.major && self.minor < other.minor)
    }

    /// This version is at or above `other`.
    pub open spec fn spec_ge(self, other: ApiVersion) -> bool {
        !self.spec_lt(other)
    }

    /// The host collector supports compaction from version 2.7 on.
    pub open spec fn spec_supports_compaction(self) -> bool {
        self.spec_ge(ApiVersion { major: 2, minor: 7 })
    }

    /// The host object flags carry a frozen-shareable bit from version 3.0
    /// on.
    pub open spec fn spec_supports_frozen_shareable(self) -> bool {
        self.spec_ge(ApiVersion { major: 3, minor: 0 })
    }

    /// Decide whether this version is at or above `major.minor`.
    pub fn ge(self, major: u8, minor: u8) -> (b: bool)
        ensures
            b == self.spec_ge(ApiVersion { major, minor }),
    {
        self.major > major || (self.major == major && self.minor >= minor)
    }

    /// Decide whether the host collector of this version supports
    /// compaction.
    pub fn supports_compaction(self) -> (b: bool)
        ensures
            b == self.spec_supports_compaction(),
    {
        self.ge(2, 7)
    }

    /// Decide whether this version carries the frozen-shareable object flag.
    pub fn supports_frozen_shareable(self) -> (b: bool)
        ensures
            b == self.spec_supports_frozen_shareable(),
    {
        self.ge(3, 0)
    }
}

/// Compute the comparison gates of the installed version against one pivot
/// version.
pub fn gate(installed: ApiVersion, pivot: ApiVersion) -> (g: VersionGate)
    ensures
        g.lt == installed.spec_lt(pivot),
        g.lte == (installed.spec_lt(pivot) || installed == pivot),
        g.eq == (installed == pivot),
        g.gte == installed.spec_ge(pivot),
        g.gt == (installed.spec_ge(pivot) && installed != pivot),
{
    let lt = installed.major < pivot.major || (installed.major == pivot.major
        && installed.minor < pivot.minor);
    let eq = installed.major == pivot.major && installed.minor == pivot.minor;
    VersionGate { lt, lte: lt || eq, eq, gte: !lt, gt: !lt && !eq }
}

/// The numeric value of a decimal digit sequence, most significant first.
pub open spec fn spec_decimal_value(s: Seq<u8>) -> int
    decreases s.len(),
{
    if s.len() == 0 {
        0
    } else {
        spec_decimal_value(s.drop_last()) * 10 + (s.last() - 0x30)
    }
}

/// Every byte of `s` is an ASCII decimal digit.
pub open spec fn spec_all_digits(s: Seq<u8>) -> bool {
    forall|i: int| 0 <= i < s.len() ==> 0x30 <= #[trigger] s[i] <= 0x39
}

/// `s` parses as a `u8` decimal number: non-empty, all digits, value at
/// most 255.
pub open spec fn spec_parses_as_u8(s: Seq<u8>) -> bool {
    s.len() > 0 && spec_all_digits(s) && spec_decimal_value(s) <= 255
}

/// The value of a digit sequence is never negative.
proof fn lemma_decimal_value_nonneg(s: Seq<u8>)
    requires
        spec_all_digits(s),
    ensures
        spec_decimal_value(s) >= 0,
    decreases s.len(),
{
    if s.len() > 0 {
        assert(spec_all_digits(s.drop_last())) by {
            assert(forall|i: int| 0 <= i < s.len() - 1 ==> s.drop_last()[i] == s[i]);
        }
        lemma_decimal_value_nonneg(s.drop_last());
        assert(s[s.len() - 1] >= 0x30);
    }
}

/// Appending digits never shrinks the value of a digit sequence.
proof fn lemma_decimal_value_prefix(s: Seq<u8>, i: int)
    requires
        0 <= i <= s.len(),
        spec_all_digits(s),
    ensures
        spec_decimal_value(s.take(i)) <= spec_decimal_value(s),
    decreases s.len() - i,
{
    if i < s.len() {
        lemma_decimal_value_prefix(s, i + 1);
        assert(s.take(i + 1).drop_last() =~= s.take(i));
        assert(s.take(i + 1).last() == s[i]);
        assert(spec_all_digits(s.take(i))) by {
            assert(forall|j: int| 0 <= j < i ==> s.take(i)[j] == s[j]);
        }
        lemma_decimal_value_nonneg(s.take(i));
        assert(s[i] >= 0x30);
    } else {
        assert(s.take(i) =~= s);
    }
}

/// Parse a decimal `u8` from bytes, as the version probe does for each
/// component of the version string.  Leading zeroes are accepted; an empty
/// input, a non-digit byte, or a value above 255 is rejected.
pub fn parse_u8_decimal(s: &Vec<u8>) -> (r: Option<u8>)
    ensures
        r is Some <==> spec_parses_as_u8(s@),
        r matches Some(v) ==> v == spec_decimal_value(s@),
{
    if s.len() == 0 {
        return None;
    }
    let mut acc: u16 = 0;
    let mut i: usize = 0;
    while i < s.len()
        invariant
            0 <= i <= s@.len(),
            spec_all_digits(s@.take(i as int)),
            acc == spec_decimal_value(s@.take(i as int)),
            acc <= 255,
        decreases s@.len() - i,
    {
        let b = s[i];
        if b < 0x30 || b > 0x39 {
            return None;
        }
        let digit = (b - 0x30) as u16;
        let next = acc * 10 + digit;
        proof {
            assert(s@.take(i + 1).drop_last() =~= s@.take(i as int));
            assert(s@.take(i + 1).last() == s@[i as int]);
        }
        if next > 255 {
            proof {
                if spec_all_digits(s@) {
                    lemma_decimal_value_prefix(s@, i + 1);
                }
            }
            return None;
        }
        acc = next;
        i = i + 1;
    }
    proof {
        assert(s@.take(i as int) =~= s@);
    }
    Some(acc as u8)
}

/// The position of the first `sep` byte in `s`, if any.
pub open spec fn spec_find(s: Seq<u8>, sep: u8) -> Option<int>
    decreases s.len(),
{
    if s.len() == 0 {
        None
    } else if s[0] == sep {
        Some(0)
    } else {
        match spec_find(s.drop_first(), sep) {
            Some(i) => Some(i + 1),
            None => None,
        }
    }
}

/// `spec_find` names the first occurrence of `sep`.
pub proof fn lemma_find_first(s: Seq<u8>, sep: u8)
    ensures
        spec_find(s, sep) matches Some(i) ==> 0 <= i < s.len() && s[i] == sep
            && forall|j: int| 0 <= j < i ==> s[j] != sep,
        spec_find(s, sep) is None ==> forall|j: int| 0 <= j < s.len() ==> s[j] != sep,
    decreases s.len(),
{
    if s.len() > 0 && s[0] != sep {
        lemma_find_first(s.drop_first(), sep);
        assert forall|j: int| 0 <= j < s.len() && spec_find(s, sep) is None implies s[j] != sep by {
            if j > 0 {
                assert(s.drop_first()[j - 1] == s[j]);
            }
        }
        if spec_find(s.drop_first(), sep) is Some {
            let i: int = spec_find(s.drop_first(), sep)->Some_0;
            assert forall|j: int| 0 <= j < i + 1 implies s[j] != sep by {
                if j > 0 {
                    assert(s.drop_first()[j - 1] == s[j]);
                }
            }
            assert(s.drop_first()[i] == s[i + 1]);
        }
    }
}

/// Find the first `sep` byte in `s`.
pub fn find_byte(s: &Vec<u8>, sep: u8) -> (r: Option<usize>)
    ensures
        r matches Some(i) ==> spec_find(s@, sep) == Some(i as int),
        r is None ==> spec_find(s@, sep) is None,
{
    let mut i: usize = 0;
    while i < s.len()
        invariant
            0 <= i <= s@.len(),
            forall|j: int| 0 <= j < i ==> s@[j] != sep,
        decreases s@.len() - i,
    {
        if s[i] == sep {
            proof {
                lemma_find_first(s@, sep);
                assert(spec_find(s@, sep) is Some) by {
                    if spec_find(s@, sep) is None {
                        assert(s@[i as int] != sep);
                    }
                }
                let k: int = spec_find(s@, sep)->Some_0;
                assert(!(k > i as int)) by {
                    if k > i as int {
                        assert(s@[i as int] != sep);
                    }
                }
                assert(spec_find(s@, sep) == Some(i as int));
            }
            return Some(i);
        }
        i = i + 1;
    }
    proof {
        lemma_find_first(s@, sep);
        assert(spec_find(s@, sep) is None) by {
            if spec_find(s@, sep) is Some {
                let k: int = spec_find(s@, sep)->Some_0;
                assert(s@[k] == sep);
                assert(s@[k] != sep);
            }
        }
    }
    None
}

/// The raw version bytes parse as `major.minor`: a dot with a `u8` decimal
/// number on each side.
pub open spec fn spec_parses_as_version(s: Seq<u8>) -> bool {
    spec_find(s, 0x2e) matches Some(dot) && spec_parses_as_u8(s.take(dot))
        && spec_parses_as_u8(s.skip(dot + 1))
}

/// The version named by raw bytes that parse as `major.minor`.
pub open spec fn spec_parsed_version(s: Seq<u8>) -> ApiVersion
    recommends
        spec_parses_as_version(s),
{
    let dot = spec_find(s, 0x2e)->Some_0;
    ApiVersion {
        major: spec_decimal_value(s.take(dot)) as u8,
        minor: spec_decimal_value(s.skip(dot + 1)) as u8,
    }
}

/// Parse the API version the host configuration reports, written as two
/// decimal numbers around the first dot.  Bytes after a second dot are not
/// accepted as part of the minor number.
pub fn parse_api_version(s: &Vec<u8>) -> (r: Option<ApiVersion>)
    ensures
        r is Some <==> spec_parses_as_version(s@),
        r matches Some(v) ==> v == spec_parsed_version(s@),
{
    let dot = match find_byte(s, 0x2e) {
        Some(i) => i,
        None => {
            return None;
        },
    };
    proof {
        lemma_find_first(s@, 0x2e);
        assert(dot < s.len());
    }
    let mut major_digits: Vec<u8> = Vec::new();
    let mut i: usize = 0;
    while i < dot
        invariant
            0 <= i <= dot < s@.len(),
            major_digits@ == s@.take(dot as int).take(i as int),
        decreases dot - i,
    {
        major_digits.push(s[i]);
        proof {
            assert(s@.take(dot as int).take(i + 1) =~= major_digits@);
        }
        i = i + 1;
    }
    proof {
        assert(s@.take(dot as int).take(dot as int) =~= s@.take(dot as int));
    }
    let mut minor_digits: Vec<u8> = Vec::new();
    let mut j: usize = dot + 1;
    while j < s.len()
        invariant
            dot + 1 <= j <= s@.len(),
            minor_digits@ == s@.skip(dot + 1).take(j - (dot + 1)),
        decreases s@.len() - j,
    {
        minor_digits.push(s[j]);
        proof {
            assert(s@.skip(dot + 1).take(j + 1 - (dot + 1)) =~= minor_digits@);
        }
        j = j + 1;
    }
    proof {
        assert(s@.skip(dot + 1).take(s@.len() - (dot + 1)) =~= s@.skip(dot + 1));
    }
    let major = match parse_u8_decimal(&major_digits) {
        Some(v) => v,
        None => {
            return None;
        },
    };
    let minor = match parse_u8_decimal(&minor_digits) {
        Some(v) => v,
        None => {
            return None;
        },
    };
    Some(ApiVersion { major, minor })
}

} // verus!
