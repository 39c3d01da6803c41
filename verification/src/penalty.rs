//! The load score of a node: lower is better.
//!
//! The score adds the number of playing players to three terms that grow
//! with the host's CPU load, with the frames that the node sent late and with
//! the frames that it lost. The three terms are powers of a real base and are
//! rounded down by whoever reads the statistics; this module adds them up,
//! decides when they count, and compares nodes by the sum.

use crate::model::Stats;
use vstd::prelude::*;

verus! {

/// The rounded-down terms of a node's score that are not whole numbers to
/// begin with.
#[derive(Clone, Copy, Debug, PartialEq, Eq, Structural)]
pub struct PenaltyTerms {
    /// `10 * 1.05^(100 * system load) - 10`, rounded down.
    pub cpu: i32,
    /// `300 * 1.03^(500 * deficit frames / 3000) - 300`, rounded down.
    pub deficit: i32,
    /// `2 * (300 * 1.03^(500 * nulled frames / 3000) - 300)`, rounded down.
    pub nulled: i32,
}

/// The latest statistics of a node together with the terms computed from
/// them.
#[derive(Clone, Copy, Debug, PartialEq)]
pub struct Snapshot {
    /// The statistics as the node reported them.
    pub stats: Stats,
    /// The terms of the score that were computed from `stats`.
    pub terms: PenaltyTerms,
}

/// The score that no node can exceed. A node that has not reported any
/// statistics yet has this score.
pub const WORST_PENALTY: i32 = i32::MAX;

/// The sum of the playing players and the terms that count: the frame terms
/// count only where the node reported frame statistics.
pub open spec fn penalty_sum(snapshot: Snapshot) -> int {
    snapshot.stats.playing_players + snapshot.terms.cpu + if snapshot.stats.frames.is_some() {
        snapshot.terms.deficit + snapshot.terms.nulled
    } else {
        0
    }
}

/// A sum brought into the range of a score.
pub open spec fn saturated(sum: int) -> int {
    if sum > i32::MAX {
        i32::MAX as int
    } else if sum < i32::MIN {
        i32::MIN as int
    } else {
        sum
    }
}

/// The score of a node whose latest snapshot is `snapshot`.
pub open spec fn penalty_of(snapshot: Option<Snapshot>) -> int {
    match snapshot {
        None => WORST_PENALTY as int,
        Some(s) => saturated(penalty_sum(s)),
    }
}

/// Compute the score of a node from its latest snapshot.
pub fn penalty(snapshot: &Option<Snapshot>) -> (r: i32)
    ensures
        r == penalty_of(*snapshot),
{
    match snapshot {
        None => WORST_PENALTY,
        Some(s) => {
            let frames: i128 = if s.stats.frames.is_some() {
                s.terms.deficit as i128 + s.terms.nulled as i128
            } else {
                0
            };
            let sum: i128 = s.stats.playing_players as i128 + s.terms.cpu as i128 + frames;
            if sum > i32::MAX as i128 {
                i32::MAX
            } else if sum < i32::MIN as i128 {
                i32::MIN
            } else {
                sum as i32
            }
        },
    }
}

/// Whether `b` reports at least as much load as `a` in every input of the
/// score, with frame statistics present in both or in neither.
pub open spec fn no_less_loaded(a: Snapshot, b: Snapshot) -> bool {
    &&& a.stats.frames.is_some() == b.stats.frames.is_some()
    &&& a.stats.playing_players <= b.stats.playing_players
    &&& a.terms.cpu <= b.terms.cpu
    &&& a.terms.deficit <= b.terms.deficit
    &&& a.terms.nulled <= b.terms.nulled
}

/// The score never falls when the playing players, the CPU term, the deficit
/// term or the nulled term rise, whether one of them rises or several.
pub proof fn penalty_is_monotone(a: Snapshot, b: Snapshot)
    requires
        no_less_loaded(a, b),
    ensures
        penalty_of(Some(a)) <= penalty_of(Some(b)),
{
}

/// No snapshot scores worse than a node without statistics.
pub proof fn unscored_is_worst(snapshot: Option<Snapshot>)
    ensures
        penalty_of(snapshot) <= penalty_of(None),
{
}

} // verus!
