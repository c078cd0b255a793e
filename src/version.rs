//! Versions of the software under test, and the version check that compares
//! them against optional bounds.
//!
//! A version is read by the `versions` crate and held here as plain values:
//! a semantic version as its numbers, pre-release and build metadata; any other
//! version as its text. Before two versions are compared, their pre-release and
//! build metadata are stripped.

use std::cmp::Ordering;
use vstd::prelude::*;
use crate::status::Status;
use crate::text::{chars_of, decimal, has_prefix, lines, lines_of, push_decimal, push_str, slice, split_once, split_once_spec, starts_with, string_of, trim, trimmed};

verus! {

/// A semantic version `major.minor.patch[-pre_rel][+meta]`.
pub struct SemVer {
    pub major: u32,
    pub minor: u32,
    pub patch: u32,
    /// Pre-release part, without its leading `-`.
    pub pre_rel: Option<String>,
    /// Build metadata, without its leading `+`.
    pub meta: Option<String>,
}

/// A version as the `versions` crate reads it.
pub enum Version {
    /// A semantic version.
    Ideal(SemVer),
    /// A version that is not semantic but has a regular shape
    /// (`1:2.3.4-r1+meta`): an optional epoch, the main chunks, an optional
    /// release part and optional build metadata.
    General { epoch: Option<u32>, chunks: String, release: Option<String>, meta: Option<String> },
    /// Any other version, as its text.
    Complex { text: String },
}

/// `sep` followed by the text of `o`, or nothing.
pub open spec fn opt_part(sep: char, o: Option<String>) -> Seq<char> {
    match o {
        Some(s) => seq![sep] + s@,
        None => Seq::empty(),
    }
}

/// The epoch of a general version followed by `:`, or nothing.
pub open spec fn epoch_part(e: Option<u32>) -> Seq<char> {
    match e {
        Some(n) => decimal(n as nat) + seq![':'],
        None => Seq::empty(),
    }
}

/// The numbers of a semantic version in order.
pub open spec fn core_text(s: SemVer) -> Seq<char> {
    decimal(s.major as nat) + seq!['.'] + decimal(s.minor as nat) + seq!['.'] + decimal(s.patch as nat)
}

impl Version {
    /// The text of a version.
    pub open spec fn text(self) -> Seq<char> {
        match self {
            Version::Ideal(s) => core_text(s) + opt_part('-', s.pre_rel) + opt_part('+', s.meta),
            Version::General { epoch, chunks, release, meta } =>
                epoch_part(epoch) + chunks@ + opt_part('-', release) + opt_part('+', meta),
            Version::Complex { text } => text@,
        }
    }

    /// The version with its pre-release and build metadata removed; a general
    /// version keeps its release part and loses its metadata.
    pub open spec fn stripped(self) -> Version {
        match self {
            Version::Ideal(s) => Version::Ideal(SemVer { pre_rel: None, meta: None, ..s }),
            Version::General { epoch, chunks, release, meta } => Version::General { epoch, chunks, release, meta: None },
            Version::Complex { text } => Version::Complex { text },
        }
    }
}

fn push_opt_part(out: &mut Vec<char>, sep: char, o: &Option<String>)
    ensures
        final(out)@ == old(out)@ + opt_part(sep, *o),
{
    match o {
        Some(s) => {
            out.push(sep);
            let cs = chars_of(s.as_str());
            push_str(out, &cs);
            proof {
                assert(final(out)@ =~= old(out)@ + opt_part(sep, *o));
            }
        },
        None => {
            proof {
                assert(out@ =~= old(out)@ + opt_part(sep, *o));
            }
        },
    }
}

fn push_general_body(out: &mut Vec<char>, epoch: Option<u32>, chunks: &String, release: &Option<String>)
    ensures
        final(out)@ == old(out)@ + epoch_part(epoch) + chunks@ + opt_part('-', *release),
{
    match epoch {
        Some(n) => {
            push_decimal(out, n as u64);
            out.push(':');
        },
        None => {},
    }
    let cs = chars_of(chunks.as_str());
    push_str(out, &cs);
    push_opt_part(out, '-', release);
    proof {
        assert(final(out)@ =~= old(out)@ + epoch_part(epoch) + chunks@ + opt_part('-', *release));
    }
}

fn push_core(out: &mut Vec<char>, s: &SemVer)
    ensures
        final(out)@ == old(out)@ + core_text(*s),
{
    push_decimal(out, s.major as u64);
    out.push('.');
    push_decimal(out, s.minor as u64);
    out.push('.');
    push_decimal(out, s.patch as u64);
    proof {
        assert(final(out)@ =~= old(out)@ + core_text(*s));
    }
}

impl Version {
    /// The text of this version.
    pub fn to_text(&self) -> (r: String)
        ensures
            r@ == self.text(),
    {
        let mut out: Vec<char> = Vec::new();
        match self {
            Version::Ideal(s) => {
                push_core(&mut out, s);
                push_opt_part(&mut out, '-', &s.pre_rel);
                push_opt_part(&mut out, '+', &s.meta);
            },
            Version::General { epoch, chunks, release, meta } => {
                push_general_body(&mut out, *epoch, chunks, release);
                push_opt_part(&mut out, '+', meta);
            },
            Version::Complex { text } => {
                let cs = chars_of(text.as_str());
                push_str(&mut out, &cs);
            },
        }
        proof {
            assert(out@ =~= self.text());
        }
        string_of(&out)
    }

    /// The text of this version with its pre-release and build metadata removed.
    pub fn stripped_text(&self) -> (r: String)
        ensures
            r@ == self.stripped().text(),
    {
        let mut out: Vec<char> = Vec::new();
        match self {
            Version::Ideal(s) => {
                push_core(&mut out, s);
            },
            Version::General { epoch, chunks, release, .. } => {
                push_general_body(&mut out, *epoch, chunks, release);
            },
            Version::Complex { text } => {
                let cs = chars_of(text.as_str());
                push_str(&mut out, &cs);
            },
        }
        proof {
            assert(out@ =~= self.stripped().text());
        }
        string_of(&out)
    }
}

/// What `versions::Versioning::new` reads from a text.
pub uninterp spec fn parsed_version(s: Seq<char>) -> Option<Version>;

/// How `versions::Versioning` orders the versions read from two texts; `None`
/// when one of the texts is not a version.
pub uninterp spec fn version_order(a: Seq<char>, b: Seq<char>) -> Option<Ordering>;

/// Relies on `versions::Versioning::new`, which reads a text as a semantic,
/// general or complex version, or returns `None`; the parts of the version are
/// kept as the crate displays them.
#[verifier::external_body]
fn versioning_new(s: &str) -> (r: Option<Version>)
    ensures
        r == parsed_version(s@),
{
    match versions::Versioning::new(s) {
        None => None,
        Some(versions::Versioning::Ideal(v)) => Some(Version::Ideal(SemVer {
            major: v.major, minor: v.minor, patch: v.patch,
            pre_rel: v.pre_rel.map(|p| p.to_string()), meta: v.meta,
        })),
        Some(versions::Versioning::General(v)) => Some(Version::General {
            epoch: v.epoch, chunks: v.chunks.to_string(),
            release: v.release.map(|r| r.to_string()), meta: v.meta,
        }),
        Some(versions::Versioning::Complex(m)) => Some(Version::Complex { text: m.to_string() }),
    }
}

/// Reads a version from its text: a semantic version if it is one, else a
/// general version, else a complex one; `None` if it is no version at all.
pub fn parse_version(s: &str) -> (r: Option<Version>)
    ensures
        r == parsed_version(s@),
{
    versioning_new(s)
}

/// Relies on `versions::Versioning::new` to read both texts and on the `Ord`
/// of `versions::Versioning` to order them. Reading is deterministic and every
/// ordering of the crate compares equal values as `Equal`, so a text ordered
/// against itself is `Equal`.
#[verifier::external_body]
fn order_texts(a: &str, b: &str) -> (r: Option<Ordering>)
    ensures
        r == version_order(a@, b@),
        a@ == b@ ==> (r is None || r == Some(Ordering::Equal)),
{
    match (versions::Versioning::new(a), versions::Versioning::new(b)) {
        (Some(x), Some(y)) => Some(x.cmp(&y)),
        _ => None,
    }
}

/// Order of the numbers of two semantic versions, major first. For semantic
/// versions without pre-release this is the order of `versions::SemVer`.
pub open spec fn numbers_order(a: SemVer, b: SemVer) -> Ordering {
    if a.major < b.major { Ordering::Less }
    else if a.major > b.major { Ordering::Greater }
    else if a.minor < b.minor { Ordering::Less }
    else if a.minor > b.minor { Ordering::Greater }
    else if a.patch < b.patch { Ordering::Less }
    else if a.patch > b.patch { Ordering::Greater }
    else { Ordering::Equal }
}

/// Order of two stripped versions: semantic versions by their numbers, any
/// other pair as the `versions` crate orders their texts.
pub open spec fn stripped_order(a: Version, b: Version) -> Option<Ordering> {
    match (a.stripped(), b.stripped()) {
        (Version::Ideal(x), Version::Ideal(y)) => Some(numbers_order(x, y)),
        (x, y) => version_order(x.text(), y.text()),
    }
}

fn order_numbers(a: &SemVer, b: &SemVer) -> (r: Ordering)
    ensures
        r == numbers_order(*a, *b),
{
    if a.major < b.major { Ordering::Less }
    else if a.major > b.major { Ordering::Greater }
    else if a.minor < b.minor { Ordering::Less }
    else if a.minor > b.minor { Ordering::Greater }
    else if a.patch < b.patch { Ordering::Less }
    else if a.patch > b.patch { Ordering::Greater }
    else { Ordering::Equal }
}

/// Orders two versions with their pre-release and build metadata stripped.
pub fn order_stripped(a: &Version, b: &Version) -> (r: Option<Ordering>)
    ensures
        r == stripped_order(*a, *b),
        a.stripped() == b.stripped() ==> (r is None || r == Some(Ordering::Equal)),
{
    match (a, b) {
        (Version::Ideal(x), Version::Ideal(y)) => Some(order_numbers(x, y)),
        _ => {
            let ta = a.stripped_text();
            let tb = b.stripped_text();
            order_texts(ta.as_str(), tb.as_str())
        },
    }
}

/// Why a version is outside a bound.
#[derive(Debug, Clone, Copy, PartialEq, Eq, Structural)]
pub enum VersionError {
    /// The version is greater than the maximum.
    AboveMaximum,
    /// The version is less than the minimum.
    BelowMinimum,
    /// The version and the bound cannot be ordered.
    Unordered,
}

/// A minimum and/or a maximum version, both inclusive.
pub struct VersionComparison {
    pub min: Option<Version>,
    pub max: Option<Version>,
}

impl VersionComparison {
    /// Whether `version` lies within the bounds, maximum checked first.
    pub open spec fn spec_compare(self, version: Version) -> Result<(), VersionError> {
        let above = match self.max {
            Some(max) => stripped_order(version, max),
            None => Some(Ordering::Less),
        };
        let below = match self.min {
            Some(min) => stripped_order(version, min),
            None => Some(Ordering::Greater),
        };
        if above is None {
            Err(VersionError::Unordered)
        } else if above == Some(Ordering::Greater) {
            Err(VersionError::AboveMaximum)
        } else if below is None {
            Err(VersionError::Unordered)
        } else if below == Some(Ordering::Less) {
            Err(VersionError::BelowMinimum)
        } else {
            Ok(())
        }
    }

    /// Compares a known version against the bounds, with pre-release and build
    /// metadata stripped from both: `Ok` if it is acceptable.
    pub fn compare(&self, version: &Version) -> (r: Result<(), VersionError>)
        ensures
            r == self.spec_compare(*version),
            (self.min is Some && self.min->0.stripped() == version.stripped()
                && self.max is Some && self.max->0.stripped() == version.stripped())
                ==> (r is Ok || r == Err::<(), VersionError>(VersionError::Unordered)),
    {
        match &self.max {
            Some(max) => match order_stripped(version, max) {
                None => return Err(VersionError::Unordered),
                Some(Ordering::Greater) => return Err(VersionError::AboveMaximum),
                Some(_) => {},
            },
            None => {},
        }
        match &self.min {
            Some(min) => match order_stripped(version, min) {
                None => return Err(VersionError::Unordered),
                Some(Ordering::Less) => return Err(VersionError::BelowMinimum),
                Some(_) => {},
            },
            None => {},
        }
        Ok(())
    }
}

/// Comparing a semantic version against bounds that are that same version,
/// up to pre-release and build metadata, always succeeds.
pub proof fn lemma_compare_reflexive(bound: Version, version: Version)
    requires
        bound is Ideal,
        version.stripped() == bound.stripped(),
    ensures
        (VersionComparison { min: Some(bound), max: Some(bound) }).spec_compare(version) == Ok::<(), VersionError>(()),
{
}

/// Why the version of a component could not be read from its output.
#[derive(Debug, Clone, Copy, PartialEq, Eq, Structural)]
pub enum ProbeError {
    /// No line of the output names a version.
    NotFound,
    /// The named version is not a version.
    Invalid,
}

/// The start of the line of `docker --version` that names the version.
pub open spec fn docker_marker() -> Seq<char> {
    seq!['D', 'o', 'c', 'k', 'e', 'r', ' ', 'v', 'e', 'r', 's', 'i', 'o', 'n']
}

/// The start of the line of `runc --version` that names the version.
pub open spec fn runc_marker() -> Seq<char> {
    seq!['r', 'u', 'n', 'c', ' ', 'v', 'e', 'r', 's', 'i', 'o', 'n']
}

/// The version named by a line of `docker --version`: what follows the
/// marker, trimmed, up to its first comma.
pub open spec fn docker_line_version(line: Seq<char>) -> Option<Seq<char>> {
    if has_prefix(line, docker_marker()) {
        match split_once_spec(trim(line.subrange(docker_marker().len() as int, line.len() as int)), seq![',']) {
            Some((v, _)) => Some(v),
            None => None,
        }
    } else {
        None
    }
}

/// The version named by a line of `runc --version`: what follows the marker,
/// trimmed.
pub open spec fn runc_line_version(line: Seq<char>) -> Option<Seq<char>> {
    if has_prefix(line, runc_marker()) {
        Some(trim(line.subrange(runc_marker().len() as int, line.len() as int)))
    } else {
        None
    }
}

/// The version named by the first line that names one.
pub open spec fn first_named(lines: Seq<Seq<char>>, docker: bool) -> Option<Seq<char>>
    decreases lines.len(),
{
    if lines.len() == 0 {
        None
    } else {
        let found = if docker { docker_line_version(lines[0]) } else { runc_line_version(lines[0]) };
        match found {
            Some(v) => Some(v),
            None => first_named(lines.drop_first(), docker),
        }
    }
}

/// The version that the output of `docker --version` (when `docker`) or of
/// `runc --version` names.
pub open spec fn probed_version(output: Seq<char>, docker: bool) -> Result<Version, ProbeError> {
    match first_named(lines(output), docker) {
        None => Err(ProbeError::NotFound),
        Some(t) => match parsed_version(t) {
            Some(v) => Ok(v),
            None => Err(ProbeError::Invalid),
        },
    }
}

fn line_version(line: &Vec<char>, docker: bool) -> (r: Option<Vec<char>>)
    ensures
        match (r, if docker { docker_line_version(line@) } else { runc_line_version(line@) }) {
            (Some(a), Some(b)) => a@ == b,
            (None, None) => true,
            _ => false,
        },
{
    let marker: Vec<char> = if docker {
        vec!['D', 'o', 'c', 'k', 'e', 'r', ' ', 'v', 'e', 'r', 's', 'i', 'o', 'n']
    } else {
        vec!['r', 'u', 'n', 'c', ' ', 'v', 'e', 'r', 's', 'i', 'o', 'n']
    };
    proof {
        assert(marker@ =~= if docker { docker_marker() } else { runc_marker() });
    }
    if !starts_with(line, &marker) {
        return None;
    }
    let rest = slice(line, marker.len(), line.len());
    let rest = trimmed(&rest);
    if docker {
        let comma: Vec<char> = vec![','];
        proof {
            assert(comma@ =~= seq![',']);
        }
        match split_once(&rest, &comma) {
            Some((v, _)) => Some(v),
            None => None,
        }
    } else {
        Some(rest)
    }
}

fn version_in(output: &str, docker: bool) -> (r: Result<Version, ProbeError>)
    ensures
        r == probed_version(output@, docker),
{
    let cs = chars_of(output);
    let ls = lines_of(&cs);
    let ghost all = lines(cs@);
    let mut i: usize = 0;
    proof {
        assert(all.subrange(0, all.len() as int) =~= all);
    }
    while i < ls.len()
        invariant
            i <= ls@.len(),
            all == lines(output@),
            ls@.len() == all.len(),
            forall|k: int| 0 <= k < ls@.len() ==> (#[trigger] ls@[k])@ == all[k],
            first_named(all, docker) == first_named(all.subrange(i as int, all.len() as int), docker),
        decreases ls@.len() - i,
    {
        let ghost tail = all.subrange(i as int, all.len() as int);
        proof {
            assert(tail.drop_first() =~= all.subrange(i + 1, all.len() as int));
            assert(tail[0] == ls@[i as int]@);
        }
        match line_version(&ls[i], docker) {
            Some(v) => {
                proof {
                    let found = if docker { docker_line_version(tail[0]) } else { runc_line_version(tail[0]) };
                    assert(found == Some(v@));
                    assert(first_named(all, docker) == Some(v@));
                }
                let text = string_of(&v);
                let parsed = parse_version(text.as_str());
                proof {
                    assert(probed_version(output@, docker) == (match parsed_version(v@) {
                        Some(x) => Ok(x),
                        None => Err(ProbeError::Invalid),
                    }));
                }
                return match parsed {
                    Some(version) => Ok(version),
                    None => Err(ProbeError::Invalid),
                };
            },
            None => {},
        }
        i = i + 1;
    }
    Err(ProbeError::NotFound)
}

/// Reads the docker version from the output of `docker --version`.
pub fn docker_version_in(output: &str) -> (r: Result<Version, ProbeError>)
    ensures
        r == probed_version(output@, true),
{
    version_in(output, true)
}

/// Reads the runc version from the output of `runc --version`.
pub fn runc_version_in(output: &str) -> (r: Result<Version, ProbeError>)
    ensures
        r == probed_version(output@, false),
{
    version_in(output, false)
}

/// Reads a kernel release string (`5.18.9-arch1-1`) as a version.
pub fn kernel_version_in(release: &str) -> (r: Result<Version, ProbeError>)
    ensures
        r == (match parsed_version(release@) {
            Some(v) => Ok(v),
            None => Err(ProbeError::Invalid),
        }),
{
    match parse_version(release) {
        Some(v) => Ok(v),
        None => Err(ProbeError::Invalid),
    }
}

} // verus!
