//! Kernel releases as semantic versions, and whether a kernel is recent
//! enough for overlay filesystems.

use vstd::prelude::*;
use crate::error::Error;
use crate::error::ErrorView;
use crate::error::ErrorKindView;

verus! {

/// The parts of a semantic version that its precedence over a release
/// version depends on: the three numbers and the pre-release tag.
#[derive(Debug, PartialEq)]
pub struct KernelVersion {
    pub major: u64,
    pub minor: u64,
    pub patch: u64,
    pub pre: String,
}

/// Mathematical model of a [`KernelVersion`].
pub struct KernelVersionView {
    pub major: u64,
    pub minor: u64,
    pub patch: u64,
    pub pre: Seq<char>,
}

impl View for KernelVersion {
    type V = KernelVersionView;

    open spec fn view(&self) -> KernelVersionView {
        KernelVersionView { major: self.major, minor: self.minor, patch: self.patch, pre: self.pre@ }
    }
}

impl DeepView for KernelVersion {
    type V = KernelVersionView;

    open spec fn deep_view(&self) -> KernelVersionView {
        self@
    }
}

/// The major number of the first kernel with overlay filesystems.
pub const OVERLAY_MAJOR: u64 = 3;

/// The minor number of the first kernel with overlay filesystems.
pub const OVERLAY_MINOR: u64 = 18;

/// The patch number of the first kernel with overlay filesystems.
pub const OVERLAY_PATCH: u64 = 0;

/// What `semver::Version::parse` makes of a text: the version's numbers and
/// pre-release tag, or nothing where the text is no semantic version.
pub uninterp spec fn semver_parse(text: Seq<char>) -> Option<KernelVersionView>;

/// Calls `semver::Version::parse` and hands out the numbers and the
/// pre-release tag of the version, or nothing where the parse fails. What
/// comes back depends on the text alone.
#[verifier::external_body]
pub(crate) fn parse_version(text: &str) -> (r: Option<KernelVersion>)
    ensures
        r.deep_view() == semver_parse(text@),
{
    match semver::Version::parse(text) {
        Ok(v) => Some(
            KernelVersion {
                major: v.major,
                minor: v.minor,
                patch: v.patch,
                pre: v.pre.as_str().to_owned(),
            },
        ),
        Err(_) => None,
    }
}

/// Whether a version is the release `major.minor.patch` or comes after it:
/// its numbers are greater, taken in order, or they are the same and the
/// version is no pre-release.
pub open spec fn is_at_least(v: KernelVersionView, major: u64, minor: u64, patch: u64) -> bool {
    ||| v.major > major
    ||| v.major == major && v.minor > minor
    ||| v.major == major && v.minor == minor && v.patch > patch
    ||| v.major == major && v.minor == minor && v.patch == patch && v.pre.len() == 0
}

/// What the check of a kernel release comes to, given what the release
/// parsed to.
pub open spec fn compatibility(parsed: Option<KernelVersionView>) -> Result<bool, ErrorView> {
    match parsed {
        Some(v) => Ok(is_at_least(v, OVERLAY_MAJOR, OVERLAY_MINOR, OVERLAY_PATCH)),
        None => Err(
            ErrorView { kind: ErrorKindView::Custom, msg: "Could not parse the kernel version"@ },
        ),
    }
}

/// The view of a result of the check.
pub open spec fn compatibility_view(r: Result<bool, Error>) -> Result<bool, ErrorView> {
    match r {
        Ok(b) => Ok(b),
        Err(e) => Err(e@),
    }
}

impl KernelVersion {
    /// Whether this version is the release `major.minor.patch` or comes
    /// after it.
    pub fn at_least(&self, major: u64, minor: u64, patch: u64) -> (r: bool)
        ensures
            r == is_at_least(self@, major, minor, patch),
    {
        if self.major != major {
            self.major > major
        } else if self.minor != minor {
            self.minor > minor
        } else if self.patch != patch {
            self.patch > patch
        } else {
            self.pre.as_str().is_empty()
        }
    }
}

/// Whether a kernel whose release parsed to `parsed` has overlay
/// filesystems: its version is 3.18.0 or later. A release that did not parse
/// is an error.
pub fn kernel_compatibility(parsed: Option<KernelVersion>) -> (r: Result<bool, Error>)
    ensures
        compatibility_view(r) == compatibility(parsed.deep_view()),
{
    match parsed {
        Some(v) => Ok(v.at_least(OVERLAY_MAJOR, OVERLAY_MINOR, OVERLAY_PATCH)),
        None => Err(Error::new("Could not parse the kernel version")),
    }
}

/// What the user is told when the kernel may be too old.
pub const KERNEL_WARNING: &'static str =
    "Your kernel version might not be compatible with devenv. Use version 3.18 or greater for better compatibility";

/// The warning that the check of a kernel release calls for: none where the
/// kernel is recent enough, one where it is not or the release did not
/// parse.
pub fn kernel_warning(checked: &Result<bool, Error>) -> (w: Option<String>)
    ensures
        w is None <==> checked == Ok::<bool, Error>(true),
        w is Some ==> w->Some_0@ == KERNEL_WARNING@,
{
    match checked {
        Ok(true) => None,
        _ => Some(KERNEL_WARNING.to_owned()),
    }
}

} // verus!
