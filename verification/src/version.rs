//! Semantic versions, as the `semver` crate parses, orders and renders them.
//!
//! The library keeps a version as its plain parts. Parsing and ordering are
//! done by `semver`; rendering is the few lines of `semver`'s `Display`.

use std::cmp::Ordering;

use vstd::prelude::*;

use crate::text::{decimal, decimal_chars, push_all, string_of, chars_of, is_ascii_alnum, is_ascii_digit, split_on};

verus! {

/// A version as its parts: `(major, minor, patch, pre-release, build metadata)`.
pub type VersionView = (u64, u64, u64, Seq<char>, Seq<char>);

/// A semantic version: `major.minor.patch[-pre][+build]`.
#[derive(Clone, Debug)]
pub struct Version {
    pub major: u64,
    pub minor: u64,
    pub patch: u64,
    /// Pre-release identifiers, empty for a release.
    pub pre: String,
    /// Build metadata, empty when there is none.
    pub build: String,
}

impl View for Version {
    type V = VersionView;

    open spec fn view(&self) -> VersionView {
        (self.major, self.minor, self.patch, self.pre@, self.build@)
    }
}

/// What `semver::Version::parse` makes of `text`: `None` where it reports an
/// error, else the parts of the version.
pub uninterp spec fn semver_parse(text: Seq<char>) -> Option<VersionView>;

/// The order of `semver::Version`'s `Ord` on the versions with these parts:
/// negative, zero or positive as the first is less than, equal to or greater
/// than the second.
pub uninterp spec fn semver_order(a: VersionView, b: VersionView) -> int;

/// The order of the numeric parts alone, as a derived `Ord` on
/// `(major, minor, patch)` gives it.
pub open spec fn triple_order(a: VersionView, b: VersionView) -> int {
    if a.0 != b.0 {
        if a.0 < b.0 { -1 } else { 1 }
    } else if a.1 != b.1 {
        if a.1 < b.1 { -1 } else { 1 }
    } else if a.2 != b.2 {
        if a.2 < b.2 { -1 } else { 1 }
    } else {
        0
    }
}

/// One dot-separated identifier of a pre-release as `semver` accepts it: not
/// empty, made of ASCII letters, digits and hyphens, and without a leading
/// zero where it is numeric.
pub open spec fn prerelease_identifier_ok(id: Seq<char>) -> bool {
    &&& id.len() > 0
    &&& forall|i: int| 0 <= i < id.len() ==> (is_ascii_alnum(#[trigger] id[i]) || id[i] == '-')
    &&& (id.len() > 1 && id[0] == '0') ==> exists|i: int| 0 <= i < id.len() && !is_ascii_digit(#[trigger] id[i])
}

/// A non-empty pre-release that `semver::Prerelease::new` accepts: every
/// dot-separated identifier is well formed.
pub open spec fn prerelease_ok(pre: Seq<char>) -> bool {
    forall|k: int| 0 <= k < split_on(pre, '.').len() ==> prerelease_identifier_ok(#[trigger] split_on(pre, '.')[k])
}

/// Whether the numeric parts of two versions are equal.
pub open spec fn same_release(a: VersionView, b: VersionView) -> bool {
    a.0 == b.0 && a.1 == b.1 && a.2 == b.2
}

/// Calls `semver::Version::parse` and keeps the parts of the result.
///
/// Claims that the result is `semver_parse` of the text (the parse depends
/// on the text alone), and that its pre-release is empty or well formed, as
/// the identifiers that `parse` accepts are those that `Prerelease::new`
/// accepts. Nothing else is claimed of `semver`'s grammar.
#[verifier::external_body]
fn semver_parse_text(text: &str) -> (r: Option<Version>)
    ensures
        r is Some <==> semver_parse(text@) is Some,
        r matches Some(v) ==> v@ == semver_parse(text@)->0,
        r matches Some(v) ==> (v.pre@.len() == 0 || prerelease_ok(v.pre@)),
{
    semver::Version::parse(text).ok().map(|v| Version {
        major: v.major,
        minor: v.minor,
        patch: v.patch,
        pre: v.pre.as_str().to_owned(),
        build: v.build.as_str().to_owned(),
    })
}

/// Compares two versions with `Ord::cmp` of `semver::Version`, whose derived
/// order looks at major, minor and patch first, then the pre-release, then
/// the build metadata.
///
/// Claims that the result is `semver_order` of the two versions' parts, that
/// it is -1, 0 or 1, that equal parts compare equal, and that versions whose
/// numeric parts differ are ordered by those parts (the derived order on the
/// struct's fields), and that with equal numeric parts a well-formed
/// pre-release orders below an empty one (`Ord for Prerelease`: a real
/// release compares greater). A pre-release or build text that `semver` would
/// refuse is read as empty (`Default`), so such a version may compare equal
/// to one whose text differs; versions made by `Version::parse` and
/// `Version::new` hold none.
#[verifier::external_body]
fn semver_compare(a: &Version, b: &Version) -> (r: i8)
    ensures
        r == semver_order(a@, b@),
        -1 <= r <= 1,
        a@ == b@ ==> r == 0,
        triple_order(a@, b@) != 0 ==> r == triple_order(a@, b@),
        same_release(a@, b@) && a.pre@.len() > 0 && prerelease_ok(a.pre@) && b.pre@.len() == 0 ==> r == -1,
        same_release(a@, b@) && a.pre@.len() == 0 && b.pre@.len() > 0 && prerelease_ok(b.pre@) ==> r == 1,
{
    let x = semver::Version { major: a.major, minor: a.minor, patch: a.patch, pre: semver::Prerelease::new(&a.pre).unwrap_or_default(), build: semver::BuildMetadata::new(&a.build).unwrap_or_default() };
    let y = semver::Version { major: b.major, minor: b.minor, patch: b.patch, pre: semver::Prerelease::new(&b.pre).unwrap_or_default(), build: semver::BuildMetadata::new(&b.build).unwrap_or_default() };
    match x.cmp(&y) {
        Ordering::Less => -1,
        Ordering::Equal => 0,
        Ordering::Greater => 1,
    }
}

/// The text of a version, as `semver`'s `Display` writes it.
pub open spec fn rendered(v: VersionView) -> Seq<char> {
    decimal(v.0 as nat) + seq!['.'] + decimal(v.1 as nat) + seq!['.'] + decimal(v.2 as nat) + (
    if v.3.len() > 0 {
        seq!['-'] + v.3
    } else {
        Seq::<char>::empty()
    }) + (if v.4.len() > 0 {
        seq!['+'] + v.4
    } else {
        Seq::<char>::empty()
    })
}

impl Version {
    /// A release version with empty pre-release and build metadata.
    pub fn new(major: u64, minor: u64, patch: u64) -> (r: Version)
        ensures
            r@ == (major, minor, patch, Seq::<char>::empty(), Seq::<char>::empty()),
    {
        Version { major, minor, patch, pre: String::new(), build: String::new() }
    }

    /// A copy with the same parts.
    pub fn copied(&self) -> (r: Version)
        ensures
            r@ == self@,
    {
        Version {
            major: self.major,
            minor: self.minor,
            patch: self.patch,
            pre: self.pre.clone(),
            build: self.build.clone(),
        }
    }

    /// Parses `text` as a semantic version.
    pub fn parse(text: &str) -> (r: Option<Version>)
        ensures
            r is Some <==> semver_parse(text@) is Some,
            r matches Some(v) ==> v@ == semver_parse(text@)->0,
            r matches Some(v) ==> (v.pre@.len() == 0 || prerelease_ok(v.pre@)),
    {
        semver_parse_text(text)
    }

    /// The `semver` order: -1, 0 or 1. Versions with equal parts compare
    /// equal; versions whose major, minor or patch differ are ordered by them;
    /// a well-formed pre-release orders below its release.
    pub fn compare(&self, other: &Version) -> (r: i8)
        ensures
            r == semver_order(self@, other@),
            -1 <= r <= 1,
            self@ == other@ ==> r == 0,
            triple_order(self@, other@) != 0 ==> r == triple_order(self@, other@),
            same_release(self@, other@) && self.pre@.len() > 0 && prerelease_ok(self.pre@)
                && other.pre@.len() == 0 ==> r == -1,
            same_release(self@, other@) && self.pre@.len() == 0 && other.pre@.len() > 0
                && prerelease_ok(other.pre@) ==> r == 1,
    {
        semver_compare(self, other)
    }

    /// Whether `self` precedes `other`.
    pub fn less_than(&self, other: &Version) -> (r: bool)
        ensures
            r == (semver_order(self@, other@) < 0),
            self@ == other@ ==> !r,
            triple_order(self@, other@) != 0 ==> (r <==> triple_order(self@, other@) < 0),
            same_release(self@, other@) && self.pre@.len() > 0 && prerelease_ok(self.pre@)
                && other.pre@.len() == 0 ==> r,
            same_release(self@, other@) && self.pre@.len() == 0 && other.pre@.len() > 0
                && prerelease_ok(other.pre@) ==> !r,
    {
        semver_compare(self, other) < 0
    }

    /// The version's text: `major.minor.patch`, then `-pre` and `+build` where
    /// they are not empty.
    pub fn to_chars(&self) -> (r: Vec<char>)
        ensures
            r@ == rendered(self@),
    {
        let mut out = decimal_chars(self.major);
        out.push('.');
        let minor = decimal_chars(self.minor);
        push_all(&mut out, &minor);
        out.push('.');
        let patch = decimal_chars(self.patch);
        push_all(&mut out, &patch);
        let ghost base = out@;
        let pre = chars_of(self.pre.as_str());
        if pre.len() > 0 {
            out.push('-');
            push_all(&mut out, &pre);
        }
        let ghost with_pre = out@;
        let build = chars_of(self.build.as_str());
        if build.len() > 0 {
            out.push('+');
            push_all(&mut out, &build);
        }
        proof {
            let p = if self.pre@.len() > 0 {
                seq!['-'] + self.pre@
            } else {
                Seq::<char>::empty()
            };
            let b = if self.build@.len() > 0 {
                seq!['+'] + self.build@
            } else {
                Seq::<char>::empty()
            };
            assert(with_pre =~= base + p);
            assert(out@ =~= base + p + b);
        }
        out
    }

    /// The version's text, as `semver`'s `Display` writes it.
    pub fn to_string(&self) -> (r: String)
        ensures
            r@ == rendered(self@),
    {
        let chars = self.to_chars();
        string_of(&chars)
    }
}

impl PartialEq for Version {
    fn eq(&self, other: &Version) -> (r: bool) {
        self.major == other.major && self.minor == other.minor && self.patch == other.patch
            && self.pre == other.pre && self.build == other.build
    }
}

impl vstd::std_specs::cmp::PartialEqSpecImpl for Version {
    open spec fn obeys_eq_spec() -> bool {
        true
    }

    open spec fn eq_spec(&self, other: &Version) -> bool {
        self@ == other@
    }
}

impl PartialOrd for Version {
    fn partial_cmp(&self, other: &Version) -> (r: Option<Ordering>) {
        let c = semver_compare(self, other);
        if c < 0 {
            Some(Ordering::Less)
        } else if c == 0 {
            Some(Ordering::Equal)
        } else {
            Some(Ordering::Greater)
        }
    }
}

impl vstd::std_specs::cmp::PartialOrdSpecImpl for Version {
    open spec fn obeys_partial_cmp_spec() -> bool {
        true
    }

    open spec fn partial_cmp_spec(&self, other: &Version) -> Option<Ordering> {
        let c = semver_order(self@, other@);
        if c < 0 {
            Some(Ordering::Less)
        } else if c == 0 {
            Some(Ordering::Equal)
        } else {
            Some(Ordering::Greater)
        }
    }
}

} // verus!
