//! Semantic versions, read by the `semver` crate and advanced by the `next_version` crate.
use vstd::prelude::*;
use vstd::string::*;
use crate::cli::{all_digits, digits_value, is_digit};
use crate::conventional::conventional_commit;
use crate::text::{find, lemma_find_from_bounds};

verus! {

/// A semantic version: three numbers, a pre-release and build metadata (empty when
/// absent).
#[derive(Debug)]
pub struct Version {
    pub major: u64,
    pub minor: u64,
    pub patch: u64,
    pub pre: String,
    pub build: String,
}

impl View for Version {
    type V = (u64, u64, u64, Seq<char>, Seq<char>);

    open spec fn view(&self) -> (u64, u64, u64, Seq<char>, Seq<char>) {
        (self.major, self.minor, self.patch, self.pre@, self.build@)
    }
}

/// A version without pre-release or build metadata.
pub open spec fn plain(major: u64, minor: u64, patch: u64) -> (u64, u64, u64, Seq<char>, Seq<char>) {
    (major, minor, patch, Seq::empty(), Seq::empty())
}

/// The decimal digit of `d < 10`.
pub open spec fn digit(d: nat) -> char {
    (('0' as u32) + d) as char
}

/// `n` in decimal, without leading zeros.
pub open spec fn decimal(n: nat) -> Seq<char>
    decreases n,
{
    if n < 10 {
        seq![digit(n)]
    } else {
        decimal(n / 10).push(digit(n % 10))
    }
}

/// The text of a version (`Display` of `semver::Version`): the three numbers joined by
/// dots, then `-` and the pre-release and `+` and the build metadata when present.
pub open spec fn version_text(v: (u64, u64, u64, Seq<char>, Seq<char>)) -> Seq<char> {
    decimal(v.0 as nat) + seq!['.'] + decimal(v.1 as nat) + seq!['.'] + decimal(v.2 as nat) + (if v.3.len() > 0 {
        seq!['-'] + v.3
    } else {
        Seq::empty()
    }) + (if v.4.len() > 0 {
        seq!['+'] + v.4
    } else {
        Seq::empty()
    })
}

/// The result of `semver::Version::parse` on `text`: the version, or the text of its error.
pub uninterp spec fn semver_parse(text: Seq<char>) -> Result<
    (u64, u64, u64, Seq<char>, Seq<char>),
    Seq<char>,
>;

pub open spec fn version_result(r: Result<Version, String>) -> Result<
    (u64, u64, u64, Seq<char>, Seq<char>),
    Seq<char>,
> {
    match r {
        Ok(v) => Ok(v@),
        Err(e) => Err(e@),
    }
}

/// Whether `parsed` is what a parse of `text` gives when `text` is three decimal numbers
/// without leading zeros joined by dots: those numbers, with no pre-release or build.
pub open spec fn reads_plain_text(
    text: Seq<char>,
    parsed: Result<(u64, u64, u64, Seq<char>, Seq<char>), Seq<char>>,
) -> bool {
    forall|a: u64, b: u64, c: u64|
        #![trigger version_text(plain(a, b, c))]
        text == version_text(plain(a, b, c)) ==> parsed == Ok::<
            (u64, u64, u64, Seq<char>, Seq<char>),
            Seq<char>,
        >(plain(a, b, c))
}

/// Calls `semver::Version::parse` and reads the numbers, pre-release and build of the
/// result, or the text of the error. The contract names the result, and states what the
/// crate's parser does with three decimal numbers without leading zeros joined by dots:
/// it reads them as they are, with no pre-release or build.
#[verifier::external_body]
pub(crate) fn parse_version(text: &str) -> (r: Result<Version, String>)
    ensures
        version_result(r) == semver_parse(text@),
        reads_plain_text(text@, version_result(r)),
        version_result(r) matches Ok(v) ==> valid_prerelease(v.3),
{
    match semver::Version::parse(text) {
        Ok(v) => Ok(Version {
            major: v.major,
            minor: v.minor,
            patch: v.patch,
            pre: v.pre.as_str().to_owned(),
            build: v.build.as_str().to_owned(),
        }),
        Err(e) => Err(e.to_string()),
    }
}

/// The version after `(major, minor, patch)` for one commit whose message the
/// Conventional Commits parser reads as `parsed`, as `next_version` computes it with
/// features always raising the minor number: a breaking change raises the major number
/// (the minor one below 1.0.0 when it is not 0), a feature the minor one, anything else
/// the patch.
pub open spec fn bumped(
    major: u64,
    minor: u64,
    patch: u64,
    parsed: Option<(Seq<char>, Seq<char>, bool, bool)>,
) -> (u64, u64, u64) {
    match parsed {
        None => (major, minor, (patch + 1) as u64),
        Some((_, _, breaking, feature)) => if breaking && major != 0 {
            ((major + 1) as u64, 0, 0)
        } else if (breaking && minor != 0) || feature {
            (major, (minor + 1) as u64, 0)
        } else {
            (major, minor, (patch + 1) as u64)
        },
    }
}

/// Whether `c` may stand in an identifier of a pre-release: an ASCII letter or digit, or
/// `-`.
pub open spec fn identifier_char(c: char) -> bool {
    ('a' <= c <= 'z') || ('A' <= c <= 'Z') || ('0' <= c <= '9') || c == '-'
}

/// An identifier of a pre-release: not empty, of letters, digits and `-`, and without a
/// leading zero when it is a number of more than one digit.
pub open spec fn valid_identifier(s: Seq<char>) -> bool {
    &&& s.len() > 0
    &&& forall|i: int| 0 <= i < s.len() ==> #[trigger] identifier_char(s[i])
    &&& !(s.len() > 1 && all_digits(s) && s[0] == '0')
}

/// A non-empty pre-release as `semver` reads one: identifiers separated by dots.
pub open spec fn valid_dotted(s: Seq<char>) -> bool
    decreases s.len(),
{
    match find(s, "."@) {
        None => valid_identifier(s),
        Some(i) => {
            proof {
                lemma_find_from_bounds(s, "."@, 0);
                reveal_strlit(".");
            }
            valid_identifier(s.take(i)) && valid_dotted(s.skip(i + 1))
        },
    }
}

/// A pre-release that `semver` accepts (the empty one among them).
pub open spec fn valid_prerelease(pre: Seq<char>) -> bool {
    pre.len() == 0 || valid_dotted(pre)
}

/// The position of the last `.` in `s`, if any.
pub open spec fn last_dot(s: Seq<char>) -> Option<int>
    decreases s.len(),
{
    if s.len() == 0 {
        None
    } else if s.last() == '.' {
        Some(s.len() - 1)
    } else {
        last_dot(s.drop_last())
    }
}

/// The number that `u32::from_str` reads of decimal digits `s`, when it fits.
pub open spec fn u32_number(s: Seq<char>) -> Option<nat> {
    if s.len() > 0 && all_digits(s) && digits_value(s) <= u32::MAX {
        Some(digits_value(s))
    } else {
        None
    }
}

/// The pre-release after `pre`, as `next_version` increments one: the number after the
/// last dot plus one, or `.1` appended where there is no dot or no number after it.
pub open spec fn next_prerelease(pre: Seq<char>) -> Seq<char> {
    match last_dot(pre) {
        Some(i) => match u32_number(pre.skip(i + 1)) {
            Some(n) => pre.take(i) + seq!['.'] + decimal(n + 1),
            None => pre + seq!['.', '1'],
        },
        None => pre + seq!['.', '1'],
    }
}

/// Whether the number after the last dot of `pre` is the largest `u32`, which
/// `next_version` cannot increment.
pub open spec fn last_number_overflows(pre: Seq<char>) -> bool {
    match last_dot(pre) {
        Some(i) => u32_number(pre.skip(i + 1)) == Some(u32::MAX as nat),
        None => false,
    }
}

/// A version with these numbers and pre-release, and no build metadata.
pub open spec fn with_pre(major: u64, minor: u64, patch: u64, pre: Seq<char>) -> (u64, u64, u64, Seq<char>, Seq<char>) {
    (major, minor, patch, pre, Seq::empty())
}

/// The version after `previous` for a change whose message the Conventional Commits
/// parser reads as `parsed`: a pre-release goes to the next pre-release whatever the
/// change; a release by `bumped`, without pre-release; build metadata is kept.
pub open spec fn advanced(
    previous: (u64, u64, u64, Seq<char>, Seq<char>),
    parsed: Option<(Seq<char>, Seq<char>, bool, bool)>,
) -> (u64, u64, u64, Seq<char>, Seq<char>) {
    if previous.3.len() > 0 {
        (previous.0, previous.1, previous.2, next_prerelease(previous.3), previous.4)
    } else {
        let n = bumped(previous.0, previous.1, previous.2, parsed);
        (n.0, n.1, n.2, Seq::empty(), previous.4)
    }
}

/// Calls `VersionUpdater::default().with_features_always_increment_minor(true)
/// .increment(&version, [description])` on the version with these numbers and pre-release
/// (no build metadata), which fails where `semver::Prerelease::new` refuses `pre`. The
/// crate increments the pre-release of a pre-release version (`next_prerelease`), and
/// otherwise parses the message with `git_conventional::Commit::parse` and applies the rules
/// of `bumped`; an increment adds 1 to a `u64` or to the `u32` after the last dot of the
/// pre-release, which must stay below its maximum.
#[verifier::external_body]
fn increment_version(major: u64, minor: u64, patch: u64, pre: &str, description: &str) -> (r: Result<Version, String>)
    requires
        pre@.len() == 0 ==> major < u64::MAX && minor < u64::MAX && patch < u64::MAX,
        valid_prerelease(pre@) ==> !last_number_overflows(pre@),
    ensures
        valid_prerelease(pre@) ==> r is Ok && r->Ok_0@ == advanced(with_pre(major, minor, patch, pre@), conventional_commit(description@)),
{
    let pre = semver::Prerelease::new(pre).map_err(|e| e.to_string())?;
    let version = semver::Version { major, minor, patch, pre, build: semver::BuildMetadata::EMPTY };
    let next = next_version::VersionUpdater::default()
        .with_features_always_increment_minor(true)
        .increment(&version, [description]);
    Ok(Version { major: next.major, minor: next.minor, patch: next.patch, pre: next.pre.as_str().to_owned(), build: String::new() })
}

/// Whether `previous` can be advanced: a release below the largest numbers, or a valid
/// pre-release whose last number is not the largest `u32`.
pub open spec fn advanceable(previous: (u64, u64, u64, Seq<char>, Seq<char>)) -> bool {
    if previous.3.len() == 0 {
        previous.0 < u64::MAX && previous.1 < u64::MAX && previous.2 < u64::MAX
    } else {
        valid_prerelease(previous.3) && !last_number_overflows(previous.3)
    }
}

/// The version after `previous` for a change described by `description` (see `advanced`).
pub fn increment(previous: &Version, description: &str) -> (r: Version)
    requires
        advanceable(previous@),
    ensures
        r@ == advanced(previous@, conventional_commit(description@)),
{
    match increment_version(previous.major, previous.minor, previous.patch, previous.pre.as_str(), description) {
        Ok(n) => Version { major: n.major, minor: n.minor, patch: n.patch, pre: n.pre, build: previous.build.clone() },
        Err(_) => previous.copy(),
    }
}

/// Whether the number after the last dot of `pre` is the largest `u32`.
pub fn prerelease_overflows(pre: &str) -> (r: bool)
    ensures
        r == last_number_overflows(pre@),
{
    let s = crate::text::chars_of(pre);
    let mut k: usize = s.len();
    assert(s@.take(s@.len() as int) =~= s@);
    while k > 0 && s[k - 1] != '.'
        invariant
            k <= s@.len(),
            s@ == pre@,
            last_dot(s@) == last_dot(s@.take(k as int)),
        decreases k,
    {
        assert(s@.take(k as int).drop_last() =~= s@.take(k - 1));
        k -= 1;
    }
    if k == 0 {
        assert(s@.take(0) =~= Seq::<char>::empty());
        return false;
    }
    assert(s@.take(k as int).last() == '.');
    assert(last_dot(pre@) == Some((k - 1) as int));
    let ghost right = s@.skip(k as int);
    if k == s.len() {
        assert(right.len() == 0);
        return false;
    }
    let mut v: u64 = 0;
    let mut i: usize = k;
    while i < s.len()
        invariant
            k <= i <= s@.len(),
            s@ == pre@,
            right == s@.skip(k as int),
            last_dot(pre@) == Some((k - 1) as int),
            all_digits(right.take(i - k)),
            (v <= u32::MAX && v == digits_value(right.take(i - k))) || (v > u32::MAX && digits_value(right.take(i - k)) > u32::MAX),
        decreases s.len() - i,
    {
        let c = s[i];
        if !('0' <= c && c <= '9') {
            assert(right[i - k] == c);
            assert(!is_digit(right[i - k]));
            assert(!all_digits(right));
            return false;
        }
        let d = ((c as u32) - ('0' as u32)) as u64;
        assert(right.take(i - k + 1).drop_last() =~= right.take(i - k));
        assert(right.take(i - k + 1).last() == c);
        assert forall|j: int| 0 <= j < right.take(i - k + 1).len() implies #[trigger] is_digit(right.take(i - k + 1)[j]) by {
            if j < i - k {
                assert(right.take(i - k + 1)[j] == right.take(i - k)[j]);
            }
        }
        if v <= 4294967295 {
            v = v * 10 + d;
        }
        i += 1;
    }
    assert(right.take(s.len() - k) =~= right);
    v == 4294967295
}

impl Version {
    /// A version with three numbers and no pre-release or build.
    pub fn new(major: u64, minor: u64, patch: u64) -> (r: Version)
        ensures
            r@ == plain(major, minor, patch),
    {
        Version { major, minor, patch, pre: String::new(), build: String::new() }
    }

    pub fn copy(&self) -> (r: Version)
        ensures
            r@ == self@,
    {
        Version {
            major: self.major,
            minor: self.minor,
            patch: self.patch,
            pre: self.pre.clone(),
            build: self.build.clone(),
        }
    }

    /// Whether `self` and `other` are the same version.
    pub fn same(&self, other: &Version) -> (r: bool)
        ensures
            r == (self@ == other@),
    {
        self.major == other.major && self.minor == other.minor && self.patch == other.patch
            && self.pre == other.pre && self.build == other.build
    }

    /// The text of the version (`to_string`).
    pub fn text(&self) -> (r: String)
        ensures
            r@ == version_text(self@),
    {
        let mut out: Vec<char> = Vec::new();
        push_decimal(&mut out, self.major);
        out.push('.');
        push_decimal(&mut out, self.minor);
        out.push('.');
        push_decimal(&mut out, self.patch);
        let mut s = crate::text::string_of(&out, 0, out.len());
        assert(out@.subrange(0, out@.len() as int) == out@);
        let ghost core = s@;
        if !self.pre.as_str().is_empty() {
            s.append("-");
            s.append(self.pre.as_str());
        }
        let ghost with_pre = s@;
        if !self.build.as_str().is_empty() {
            s.append("+");
            s.append(self.build.as_str());
        }
        proof {
            reveal_strlit("-");
            reveal_strlit("+");
        }
        s
    }
}

pub(crate) fn push_decimal(out: &mut Vec<char>, n: u64)
    ensures
        final(out)@ == old(out)@ + decimal(n as nat),
    decreases n,
{
    if n >= 10 {
        push_decimal(out, n / 10);
    }
    let d = (n % 10) as u8;
    let c = ((d + 48u8) as char);
    assert(c == digit((n % 10) as nat));
    out.push(c);
}

} // verus!
