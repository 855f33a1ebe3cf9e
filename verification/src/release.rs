//! Whether an installed program is behind its latest release.

use version_compare::Version;
use vstd::prelude::*;

verus! {

/// Whether `version_compare` can read `text` as a version.
pub uninterp spec fn is_version(text: Seq<char>) -> bool;

/// Whether `version_compare` orders the version `left` after the version `right`.
pub uninterp spec fn is_later(left: Seq<char>, right: Seq<char>) -> bool;

/// Calls `Version::from` of `version_compare` and tells whether it gave a version. The
/// contract names the outcome.
#[verifier::external_body]
fn parses(text: &str) -> (r: bool)
    ensures
        r == is_version(text@),
{
    Version::from(text).is_some()
}

/// Calls `Version::from` of `version_compare` on both texts and compares what it gives
/// with `>`, the order that the crate implements for `Version`. Both texts have to be
/// versions. The contract names the outcome.
#[verifier::external_body]
fn later(left: &str, right: &str) -> (r: bool)
    requires
        is_version(left@),
        is_version(right@),
    ensures
        r == is_later(left@, right@),
{
    Version::from(left) > Version::from(right)
}

/// Whether the release tagged `latest` is to be installed over the version
/// `installed`: always where `installed` is no version, never where `latest` is none,
/// else where `latest` is the later one.
pub open spec fn update_available(installed: Seq<char>, latest: Seq<char>) -> bool {
    !is_version(installed) || (is_version(latest) && is_later(latest, installed))
}

/// Whether the version `current` is behind the version `required`. Where one of them
/// is no version, or `current` is not known, it is not.
pub open spec fn outdated(required: Seq<char>, current: Option<Seq<char>>) -> bool {
    match current {
        Some(c) => is_version(required) && is_version(c) && is_later(required, c),
        None => false,
    }
}

/// Whether `text` can be read as a version.
pub fn is_valid_version(text: &str) -> (r: bool)
    ensures
        r == is_version(text@),
{
    parses(text)
}

/// Whether the release tagged `latest` is to be installed over the version
/// `installed`.
pub fn is_update_available(installed: &str, latest: &str) -> (r: bool)
    ensures
        r == update_available(installed@, latest@),
{
    if !parses(installed) {
        return true;
    }
    if !parses(latest) {
        return false;
    }
    later(latest, installed)
}

/// Whether the installed version `current` is behind the version `required`.
pub fn is_outdated(required: &str, current: Option<&str>) -> (r: bool)
    ensures
        r == outdated(
            required@,
            match current {
                Some(c) => Some(c@),
                None => None,
            },
        ),
{
    match current {
        Some(c) => parses(required) && parses(c) && later(required, c),
        None => false,
    }
}

/// What is left to hand out when an installation has failed: the program as it was
/// installed before, where it is still there; nothing where it is not, so that the
/// failure is handed on.
pub open spec fn left_after_failure<T>(installed: Option<T>, present: bool) -> Option<T> {
    if present {
        installed
    } else {
        None
    }
}

/// What is left to hand out when an installation has failed.
pub fn after_failed_install<T>(installed: Option<T>, present: bool) -> (r: Option<T>)
    ensures
        r == left_after_failure(installed, present),
{
    if present {
        installed
    } else {
        None
    }
}

} // verus!
