//! The access patterns a caller can announce, and the host's code for each.

use vstd::prelude::*;

verus! {

/// How a region of memory is about to be used.
#[derive(Clone, Copy, Debug, PartialEq, Eq, Hash, Structural)]
pub enum AccessPattern {
    /// No special treatment: the host pages as it does by default.
    Normal,
    /// Pages are read in order, so the host may read ahead and drop pages
    /// soon after they were touched.
    Sequential,
    /// Pages are touched in no particular order, so reading ahead does not pay.
    Random,
    /// The pages are not needed for now, and the host may reclaim them.
    DontNeed,
    /// The pages are needed soon, and the host may fetch them in advance.
    WillNeed,
}

/// The integer by which the host's advisory call knows `advice`. Hosts number
/// the hints differently, so the value is fixed per build target and is not
/// spelled out here; `AccessPattern::code` returns it.
pub uninterp spec fn platform_code(advice: AccessPattern) -> i32;

/// Reads `libc::MADV_NORMAL`, the host's code for `AccessPattern::Normal`.
#[verifier::external_body]
fn madv_normal() -> (code: i32)
    ensures
        code == platform_code(AccessPattern::Normal),
{
    libc::MADV_NORMAL
}

/// Reads `libc::MADV_SEQUENTIAL`, the host's code for
/// `AccessPattern::Sequential`.
#[verifier::external_body]
fn madv_sequential() -> (code: i32)
    ensures
        code == platform_code(AccessPattern::Sequential),
{
    libc::MADV_SEQUENTIAL
}

/// Reads `libc::MADV_RANDOM`, the host's code for `AccessPattern::Random`.
#[verifier::external_body]
fn madv_random() -> (code: i32)
    ensures
        code == platform_code(AccessPattern::Random),
{
    libc::MADV_RANDOM
}

/// Reads `libc::MADV_DONTNEED`, the host's code for `AccessPattern::DontNeed`.
#[verifier::external_body]
fn madv_dontneed() -> (code: i32)
    ensures
        code == platform_code(AccessPattern::DontNeed),
{
    libc::MADV_DONTNEED
}

/// Reads `libc::MADV_WILLNEED`, the host's code for `AccessPattern::WillNeed`.
#[verifier::external_body]
fn madv_willneed() -> (code: i32)
    ensures
        code == platform_code(AccessPattern::WillNeed),
{
    libc::MADV_WILLNEED
}

impl AccessPattern {
    /// The integer to hand to the host's advisory call for this hint.
    pub fn code(self) -> (code: i32)
        ensures
            code == platform_code(self),
    {
        match self {
            AccessPattern::Normal => madv_normal(),
            AccessPattern::Sequential => madv_sequential(),
            AccessPattern::Random => madv_random(),
            AccessPattern::DontNeed => madv_dontneed(),
            AccessPattern::WillNeed => madv_willneed(),
        }
    }
}

} // verus!
