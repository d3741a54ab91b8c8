//! Staleness oracle: decides whether the derived manifest may be reused.
//!
//! The decision is made on plain modification timestamps; reading them off the
//! filesystem is the shell's job.

use vstd::prelude::*;

verus! {

/// A file modification time, as seconds and nanoseconds since some fixed
/// epoch. Ordering is lexicographic: seconds first, then nanoseconds.
#[derive(Clone, Copy, Debug, PartialEq, Eq, Structural)]
pub struct Timestamp {
    pub secs: u64,
    pub nanos: u32,
}

impl Timestamp {
    /// `self` is strictly earlier than `other`.
    pub open spec fn spec_before(self, other: Timestamp) -> bool {
        self.secs < other.secs || (self.secs == other.secs && self.nanos < other.nanos)
    }

    /// Strict comparison of two modification times.
    pub fn before(&self, other: &Timestamp) -> (r: bool)
        ensures
            r == self.spec_before(*other),
    {
        self.secs < other.secs || (self.secs == other.secs && self.nanos < other.nanos)
    }
}

/// When regeneration of the derived manifest may be skipped, as a predicate on
/// the real manifest's modification time and the derived manifest's one, where
/// `None` means the derived manifest does not exist yet.
pub open spec fn spec_should_skip(real_time: Timestamp, derived: Option<Timestamp>) -> bool {
    match derived {
        Some(d) => real_time.spec_before(d),
        None => false,
    }
}

/// Decides whether regeneration of the derived manifest may be skipped.
///
/// Skipping is allowed only when the derived manifest exists and is strictly
/// newer than the real one; a missing derived manifest or one not newer than
/// the real manifest always triggers regeneration.
pub fn should_skip_regeneration(real_modified: Timestamp, derived_modified: Option<Timestamp>) -> (r:
    bool)
    ensures
        r == spec_should_skip(real_modified, derived_modified),
        derived_modified is None ==> r == false,
        derived_modified matches Some(d) && real_modified.spec_before(d) ==> r == true,
        derived_modified matches Some(d) && !real_modified.spec_before(d) ==> r == false,
{
    match derived_modified {
        Some(d) => real_modified.before(&d),
        None => false,
    }
}

} // verus!
