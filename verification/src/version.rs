//! Semantic versions, read and ordered by the `semver` crate.

use vstd::prelude::*;

use crate::text;

verus! {

/// A semantic version in its parts.
#[derive(Debug, Clone)]
pub struct SemVer {
    /// The major version.
    pub major: u64,
    /// The minor version.
    pub minor: u64,
    /// The patch version.
    pub patch: u64,
    /// The pre-release identifiers, or nothing.
    pub pre: String,
    /// The build identifiers, or nothing.
    pub build: String,
}

/// The parts of a semantic version as plain values.
pub struct SemVerParts {
    /// The major version.
    pub major: nat,
    /// The minor version.
    pub minor: nat,
    /// The patch version.
    pub patch: nat,
    /// The pre-release identifiers, or nothing.
    pub pre: Seq<char>,
    /// The build identifiers, or nothing.
    pub build: Seq<char>,
}

impl View for SemVer {
    type V = SemVerParts;

    open spec fn view(&self) -> SemVerParts {
        SemVerParts {
            major: self.major as nat,
            minor: self.minor as nat,
            patch: self.patch as nat,
            pre: self.pre@,
            build: self.build@,
        }
    }
}

/// A part of a version behind its mark, or nothing where the part is empty.
pub open spec fn marked(mark: Seq<char>, part: Seq<char>) -> Seq<char> {
    if part.len() == 0 {
        Seq::empty()
    } else {
        mark + part
    }
}

/// A version as text.
pub open spec fn version_text(v: SemVerParts) -> Seq<char> {
    text::decimal(v.major) + "."@ + text::decimal(v.minor) + "."@ + text::decimal(v.patch) + marked(
        "-"@,
        v.pre,
    ) + marked("+"@, v.build)
}

/// The parts of the version that `semver::Version::parse` reads from a text,
/// where it reads one.
pub uninterp spec fn semver_parts(text: Seq<char>) -> Option<SemVerParts>;

/// Whether `semver` orders the version that the first text is above the one that
/// the second is.
pub uninterp spec fn semver_above(a: Seq<char>, b: Seq<char>) -> bool;

/// Whether a text is a semantic version.
pub open spec fn is_version(s: Seq<char>) -> bool {
    semver_parts(s) is Some
}

/// Whether the three numbers of `a` and `b` are the same.
pub open spec fn same_numbers(a: SemVerParts, b: SemVerParts) -> bool {
    a.major == b.major && a.minor == b.minor && a.patch == b.patch
}

/// Whether the three numbers of `a` come after those of `b`, compared from left
/// to right.
pub open spec fn numbers_above(a: SemVerParts, b: SemVerParts) -> bool {
    a.major > b.major || (a.major == b.major && (a.minor > b.minor || (a.minor == b.minor && a.patch
        > b.patch)))
}

/// `semver::Version::parse`: whether `text` is a semantic version, and its
/// parts. What it accepts is exactly what the parts write down again: numbers
/// have no leading zeros and the identifiers are kept letter for letter.
#[verifier::external_body]
pub(crate) fn read_version(text: &str) -> (r: Option<SemVer>)
    ensures
        match r {
            Some(v) => semver_parts(text@) == Some(v@) && version_text(v@) == text@,
            None => semver_parts(text@) is None,
        },
{
    match semver::Version::parse(text) {
        Ok(v) => Some(
            SemVer {
                major: v.major,
                minor: v.minor,
                patch: v.patch,
                pre: v.pre.as_str().to_owned(),
                build: v.build.as_str().to_owned(),
            },
        ),
        Err(_) => None,
    }
}

/// `semver::Version`'s order: whether the version that the text `a` is stands above the
/// one that `b` is; nothing where one of them is no version. The numbers decide from left
/// to right; with the same numbers a release is above a pre-release; no version is above
/// itself, and no two are above each other.
#[verifier::external_body]
pub(crate) fn version_above(a: &str, b: &str) -> (r: Option<bool>)
    ensures
        match (semver_parts(a@), semver_parts(b@)) {
            (Some(x), Some(y)) => {
                &&& r == Some(semver_above(a@, b@))
                &&& !same_numbers(x, y) ==> r == Some(numbers_above(x, y))
                &&& same_numbers(x, y) && x.pre.len() == 0 && y.pre.len() > 0 ==> r == Some(true)
                &&& same_numbers(x, y) && x.pre.len() > 0 && y.pre.len() == 0 ==> r == Some(false)
                &&& a@ == b@ ==> r == Some(false)
                &&& r == Some(true) ==> !semver_above(b@, a@)
            },
            _ => r is None,
        },
{
    match (semver::Version::parse(a), semver::Version::parse(b)) {
        (Ok(x), Ok(y)) => Some(x > y),
        _ => None,
    }
}

/// Whether two versions are equal in every part.
pub fn same_version(a: &SemVer, b: &SemVer) -> (r: bool)
    ensures
        r == (a@ == b@),
{
    a.major == b.major && a.minor == b.minor && a.patch == b.patch && text::same_text(
        a.pre.as_str(),
        b.pre.as_str(),
    ) && text::same_text(a.build.as_str(), b.build.as_str())
}

impl SemVer {
    /// The version as text.
    pub fn to_text(&self) -> (r: String)
        ensures
            r@ == version_text(self@),
    {
        let major = text::decimal_text(self.major);
        let minor = text::decimal_text(self.minor);
        let patch = text::decimal_text(self.patch);
        let mut out = text::cat5(major.as_str(), ".", minor.as_str(), ".", patch.as_str());
        let ghost numbers = out@;
        if !self.pre.as_str().is_empty() {
            out.append("-");
            out.append(self.pre.as_str());
        }
        assert(out@ =~= numbers + marked("-"@, self.pre@));
        let ghost before_build = out@;
        if !self.build.as_str().is_empty() {
            out.append("+");
            out.append(self.build.as_str());
        }
        assert(out@ =~= before_build + marked("+"@, self.build@));
        out
    }
}

/// A version is written with its three numbers, parted by points, and then what it is before
/// and what it was built from, where there is any.
pub proof fn law_version_texts(v: SemVerParts)
    ensures
        v.pre.len() == 0 && v.build.len() == 0 ==> version_text(v) == text::decimal(v.major) + "."@
            + text::decimal(v.minor) + "."@ + text::decimal(v.patch),
        v.pre.len() > 0 && v.build.len() == 0 ==> version_text(v) == text::decimal(v.major) + "."@
            + text::decimal(v.minor) + "."@ + text::decimal(v.patch) + "-"@ + v.pre,
        v.pre.len() == 0 && v.build.len() > 0 ==> version_text(v) == text::decimal(v.major) + "."@
            + text::decimal(v.minor) + "."@ + text::decimal(v.patch) + "+"@ + v.build,
        v.pre.len() > 0 && v.build.len() > 0 ==> version_text(v) == text::decimal(v.major) + "."@
            + text::decimal(v.minor) + "."@ + text::decimal(v.patch) + "-"@ + v.pre + "+"@
            + v.build,
{
    let numbers = text::decimal(v.major) + "."@ + text::decimal(v.minor) + "."@ + text::decimal(
        v.patch,
    );
    let empty = Seq::<char>::empty();
    assert(numbers + empty + empty =~= numbers);
    assert(numbers + ("-"@ + v.pre) + empty =~= numbers + "-"@ + v.pre);
    assert(numbers + empty + ("+"@ + v.build) =~= numbers + "+"@ + v.build);
    assert(numbers + ("-"@ + v.pre) + ("+"@ + v.build) =~= numbers + "-"@ + v.pre + "+"@ + v.build);
}

/// Versions are compared number by number, the first that differs decides.
pub proof fn law_numbers_of_versions(a: SemVerParts, b: SemVerParts)
    ensures
        same_numbers(a, b) <==> a.major == b.major && a.minor == b.minor && a.patch == b.patch,
        a.major > b.major ==> numbers_above(a, b),
        a.major == b.major && a.minor > b.minor ==> numbers_above(a, b),
        a.major == b.major && a.minor == b.minor && a.patch > b.patch ==> numbers_above(a, b),
        numbers_above(a, b) ==> !numbers_above(b, a) && !same_numbers(a, b),
        !numbers_above(a, b) && !numbers_above(b, a) ==> same_numbers(a, b),
{
}

/// What is known of a version is its three numbers and its two texts, each in its place.
pub proof fn law_parts_of_versions(v: SemVer)
    ensures
        v@.major == v.major,
        v@.minor == v.minor,
        v@.patch == v.patch,
        v@.pre == v.pre@,
        v@.build == v.build@,
{
}

} // verus!
