//! Policies for acquiring the container image of a spawned container, and the
//! decisions taken while pulling one.

use vstd::prelude::*;
use crate::text::{chars_of, split_once, split_once_spec, string_of};

verus! {

/// Options for pulling an image from a registry.
#[derive(Clone)]
pub struct PullOpts {
    /// Pull even when the image is already present on the host.
    pub always: bool,
    /// Expected SHA-256 digest of the image, without the `sha256:` prefix.
    pub sha256sum: Option<String>,
    /// Registry to pull from; the default registry when absent.
    pub repo: Option<String>,
}

/// Options for building an image from a local Dockerfile.
#[derive(Clone)]
pub struct BuildOpts {
    /// Path to the Dockerfile; its directory is the build context.
    pub dockerfile: String,
    /// Build arguments, as name and value.
    pub build_args: Vec<(String, String)>,
}

/// What to do to make the image of a container available.
#[derive(Clone)]
pub enum ImagePullPolicy {
    /// Neither build nor pull: the image must already be present.
    Never,
    /// Pull the image from a registry.
    Pull(PullOpts),
    /// Build the image from a local Dockerfile.
    Build(BuildOpts),
}

impl Default for ImagePullPolicy {
    /// Pull the image when it is missing, with no digest check.
    fn default() -> (r: ImagePullPolicy)
        ensures
            r matches ImagePullPolicy::Pull(o) && !o.always && o.sha256sum is None && o.repo is None,
    {
        ImagePullPolicy::Pull(PullOpts { always: false, sha256sum: None, repo: None })
    }
}

/// The tag that an image reference names when it names none.
pub open spec fn default_tag() -> Seq<char> {
    seq!['l', 'a', 't', 'e', 's', 't']
}

/// The tag of an image reference: what follows its first `:`, else `latest`.
pub open spec fn tag_of(image: Seq<char>) -> Seq<char> {
    match split_once_spec(image, seq![':']) {
        Some((_, tag)) => tag,
        None => default_tag(),
    }
}

/// The tag to pull for an image reference.
pub fn image_tag(image: &str) -> (r: String)
    ensures
        r@ == tag_of(image@),
{
    let cs = chars_of(image);
    let colon: Vec<char> = vec![':'];
    proof {
        assert(colon@ == seq![':']);
    }
    match split_once(&cs, &colon) {
        Some((_, tag)) => string_of(&tag),
        None => {
            let r = "latest".to_owned();
            proof {
                reveal_strlit("latest");
                assert(r@ =~= default_tag());
            }
            r
        },
    }
}

/// The prefix that marks a digest in a repository digest.
pub open spec fn digest_marker() -> Seq<char> {
    seq!['s', 'h', 'a', '2', '5', '6', ':']
}

/// The digest named by the first repository digest of an image: what follows
/// its first `sha256:`.
pub open spec fn digest_of(repo_digests: Seq<String>) -> Option<Seq<char>> {
    if repo_digests.len() == 0 {
        None
    } else {
        match split_once_spec(repo_digests[0]@, digest_marker()) {
            Some((_, d)) => Some(d),
            None => None,
        }
    }
}

/// Reads the digest of an image from its repository digests.
pub fn image_digest(repo_digests: &Vec<String>) -> (r: Option<String>)
    ensures
        match (r, digest_of(repo_digests@)) {
            (Some(d), Some(e)) => d@ == e,
            (None, None) => true,
            _ => false,
        },
{
    if repo_digests.len() == 0 {
        return None;
    }
    let cs = chars_of(repo_digests[0].as_str());
    let marker: Vec<char> = vec!['s', 'h', 'a', '2', '5', '6', ':'];
    proof {
        assert(marker@ =~= digest_marker());
    }
    match split_once(&cs, &marker) {
        Some((_, d)) => Some(string_of(&d)),
        None => None,
    }
}

/// Why a pulled image was refused.
#[derive(Debug, Clone, Copy, PartialEq, Eq, Structural)]
pub enum DigestError {
    /// A digest was expected but the image has none.
    Missing,
    /// The image's digest differs from the expected one.
    Mismatch,
}

impl PullOpts {
    /// Whether to pull, given whether the image is already on the host.
    pub fn needs_pull(&self, present: bool) -> (r: bool)
        ensures
            r == (!present || self.always),
    {
        !present || self.always
    }

    /// The verdict on the digest found after a pull.
    pub open spec fn spec_check_digest(self, found: Option<String>) -> Result<(), DigestError> {
        match (self.sha256sum, found) {
            (Some(_), None) => Err(DigestError::Missing),
            (Some(want), Some(got)) => if want@ == got@ { Ok(()) } else { Err(DigestError::Mismatch) },
            (None, _) => Ok(()),
        }
    }

    /// Checks the digest found after a pull against the expected one, if any.
    pub fn check_digest(&self, found: &Option<String>) -> (r: Result<(), DigestError>)
        ensures
            r == self.spec_check_digest(*found),
    {
        match (&self.sha256sum, found) {
            (Some(_), None) => Err(DigestError::Missing),
            (Some(want), Some(got)) => if *want == *got { Ok(()) } else { Err(DigestError::Mismatch) },
            (None, _) => Ok(()),
        }
    }
}

} // verus!
