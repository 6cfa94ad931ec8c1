//! The statistics card: counts by bucket, the derived open-bug count, and
//! the field text that presents them.

use vstd::prelude::*;
use crate::numfmt::{spec_decimal, u32_string};

verus! {

/// Counts the store aggregates for the statistics card.
#[derive(Clone, Copy, PartialEq, Eq, Structural, Debug)]
pub struct StatsBuckets {
    pub resolved: u32,
    pub low: u32,
    pub medium: u32,
    pub high: u32,
    pub critical: u32,
    pub closed: u32,
    pub forgevanilla: u32,
    pub total: u32,
    pub legacy: u32,
}

impl StatsBuckets {
    /// The aggregated buckets partition the total, so the settled ones
    /// never outnumber it.
    pub open spec fn wf(self) -> bool {
        self.resolved + self.closed + self.forgevanilla <= self.total
    }

    /// Bugs still open: the total less the resolved, closed and base-game
    /// buckets.
    pub open spec fn spec_open_count(self) -> int {
        self.total - self.resolved - self.closed - self.forgevanilla
    }

    pub fn open_count(&self) -> (r: u32)
        requires
            self.wf(),
        ensures
            r == self.spec_open_count(),
    {
        self.total - self.resolved - self.closed - self.forgevanilla
    }
}

/// Text of the statistics field.
pub open spec fn spec_stats_text(b: StatsBuckets) -> Seq<char>
    recommends
        b.wf(),
{
    spec_decimal(b.resolved as nat) + " resolved\n"@ + spec_decimal(b.closed as nat) + " closed\n"@
        + spec_decimal(b.forgevanilla as nat) + " forge or vanilla\n\n_Open bugs: "@ + spec_decimal(
        b.spec_open_count() as nat,
    ) + "_\n"@ + spec_decimal(b.low as nat) + " with low priority\n"@ + spec_decimal(b.medium as nat)
        + " with medium priority\n"@ + spec_decimal(b.high as nat) + " with high priority\n"@
        + spec_decimal(b.critical as nat) + " critical bugs\n\n**Total: "@ + spec_decimal(
        b.total as nat,
    ) + " tracked bugs**\n\t_including "@ + spec_decimal(b.legacy as nat) + " legacy bugs_\n"@
}

/// Builds the statistics field text shown on the statistics card.
pub fn stats_text(b: &StatsBuckets) -> (r: String)
    requires
        b.wf(),
    ensures
        r@ == spec_stats_text(*b),
{
    let open = b.open_count();
    let r = u32_string(b.resolved).concat(" resolved\n").concat(u32_string(b.closed).as_str())
        .concat(" closed\n").concat(u32_string(b.forgevanilla).as_str()).concat(
        " forge or vanilla\n\n_Open bugs: ",
    ).concat(u32_string(open).as_str()).concat("_\n").concat(u32_string(b.low).as_str()).concat(
        " with low priority\n",
    ).concat(u32_string(b.medium).as_str()).concat(" with medium priority\n").concat(
        u32_string(b.high).as_str(),
    ).concat(" with high priority\n").concat(u32_string(b.critical).as_str()).concat(
        " critical bugs\n\n**Total: ",
    ).concat(u32_string(b.total).as_str()).concat(" tracked bugs**\n\t_including ").concat(
        u32_string(b.legacy).as_str(),
    ).concat(" legacy bugs_\n");
    proof {
        assert(r@ =~= spec_stats_text(*b));
    }
    r
}

} // verus!
