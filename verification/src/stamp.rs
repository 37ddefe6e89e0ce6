//! Write provenance: where a value came from and when it was observed.

use vstd::prelude::*;

verus! {

/// Where a property value came from.
///
/// The variant order is the tie-break order for writes observed at the same
/// instant, most authoritative first.
#[derive(Debug, Clone, Copy, PartialEq, Eq, Structural)]
pub enum ChangeSource {
    /// Decoded from a UPnP NOTIFY.
    Event,
    /// Written locally right after a control action succeeded.
    LocalAction,
    /// Returned by an explicit fetch.
    Fetch,
}

impl ChangeSource {
    /// Tie-break rank; higher wins.
    pub open spec fn rank_spec(self) -> u8 {
        match self {
            ChangeSource::Event => 2,
            ChangeSource::LocalAction => 1,
            ChangeSource::Fetch => 0,
        }
    }

    /// Tie-break rank for writes bearing the same observation time.
    pub fn rank(self) -> (r: u8)
        ensures
            r == self.rank_spec(),
    {
        match self {
            ChangeSource::Event => 2,
            ChangeSource::LocalAction => 1,
            ChangeSource::Fetch => 0,
        }
    }
}

/// When a value was observed (in clock ticks), and by what.
#[derive(Debug, Clone, Copy, PartialEq, Eq, Structural)]
pub struct WriteStamp {
    /// When the underlying observation was made — not when it was written.
    pub observed_at: u64,
    /// What produced the observation.
    pub source: ChangeSource,
}

/// The current reading of the clock stamps are taken from: nanoseconds
/// since the Unix epoch, by `SystemTime::elapsed` on `UNIX_EPOCH` (0 when the
/// system clock reads earlier than the epoch). The reading is the system's
/// wall clock; nothing is claimed of it, not even that it never goes back.
#[verifier::external_body]
pub(crate) fn clock_now() -> (r: u64) {
    match std::time::UNIX_EPOCH.elapsed() {
        Ok(d) => d.as_nanos() as u64,
        Err(_) => 0,
    }
}

/// Whether an observation stamped `a` is at least as recent as one stamped `b`:
/// strictly later wins, and on an exact tie the more authoritative source wins.
pub open spec fn supersedes_spec(a: WriteStamp, b: WriteStamp) -> bool {
    a.observed_at > b.observed_at || (a.observed_at == b.observed_at && a.source.rank_spec()
        >= b.source.rank_spec())
}

impl WriteStamp {
    /// Stamp an observation made right now.
    pub fn now(source: ChangeSource) -> (r: WriteStamp)
        ensures
            r.source == source,
    {
        WriteStamp { observed_at: clock_now(), source }
    }

    /// Stamp an observation made at a known earlier time.
    pub fn observed_at(source: ChangeSource, observed_at: u64) -> (r: WriteStamp)
        ensures
            r.source == source,
            r.observed_at == observed_at,
    {
        WriteStamp { observed_at, source }
    }

    /// Whether this observation is at least as recent as `prev`.
    pub fn supersedes(&self, prev: &WriteStamp) -> (r: bool)
        ensures
            r == supersedes_spec(*self, *prev),
    {
        self.observed_at > prev.observed_at || (self.observed_at == prev.observed_at
            && self.source.rank() >= prev.source.rank())
    }
}

/// Result of attempting to write a property.
#[derive(Debug, Clone, Copy, PartialEq, Eq, Structural)]
pub enum WriteOutcome {
    /// Accepted, and the stored value is different than before.
    Changed,
    /// Accepted, but the value was already what was written.
    Unchanged,
    /// Rejected: a strictly newer observation is already stored.
    Stale,
}

impl WriteOutcome {
    /// Whether this write changed the stored value (and so should notify).
    pub fn changed(self) -> (r: bool)
        ensures
            r == (self is Changed),
    {
        match self {
            WriteOutcome::Changed => true,
            _ => false,
        }
    }
}

/// Stamps are totally ordered by `supersedes`: of any two, one supersedes
/// the other.
pub proof fn lemma_supersedes_total(a: WriteStamp, b: WriteStamp)
    ensures
        supersedes_spec(a, b) || supersedes_spec(b, a),
{
}

/// A stamp supersedes itself, so a repeated write is never stale.
pub proof fn lemma_supersedes_reflexive(a: WriteStamp)
    ensures
        supersedes_spec(a, a),
{
}

/// `supersedes` is transitive.
pub proof fn lemma_supersedes_transitive(a: WriteStamp, b: WriteStamp, c: WriteStamp)
    requires
        supersedes_spec(a, b),
        supersedes_spec(b, c),
    ensures
        supersedes_spec(a, c),
{
}

} // verus!
