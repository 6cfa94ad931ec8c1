//! The listing query: which records a request matches, in which order they
//! are listed, and which window of them one page shows. This is the
//! engine-side statement of what the record store computes for a listing.

use vstd::prelude::*;
use vstd::seq_lib::to_multiset_insert;
use vstd::seq_lib::group_to_multiset_ensures;
use crate::records::{BugSummary, BugSummaryView, ListRequest};
use crate::status::{BugOrder, BugStatus};

verus! {

/// View sequence of a record sequence.
pub open spec fn views(s: Seq<BugSummary>) -> Seq<BugSummaryView> {
    s.map_values(|b: BugSummary| b@)
}

/// The unfiltered listing shows the open records: the ones that are neither
/// terminal nor tracked against the base game.
pub open spec fn spec_is_open(status: BugStatus) -> bool {
    !status.spec_is_terminal() && status != BugStatus::ForgeVanilla
}

/// Whether one record belongs to the requested listing.
pub open spec fn spec_matches(
    b: BugSummaryView,
    status: Option<BugStatus>,
    legacy: Option<bool>,
) -> bool {
    (match status {
        Some(st) => b.status == st,
        None => spec_is_open(b.status),
    }) && (match legacy {
        Some(l) => b.legacy == l,
        None => true,
    })
}

fn record_matches(b: &BugSummary, status: Option<BugStatus>, legacy: Option<bool>) -> (r: bool)
    ensures
        r == spec_matches(b@, status, legacy),
{
    let st_ok = match status {
        Some(st) => b.status == st,
        None => !b.status.is_terminal() && !(b.status == BugStatus::ForgeVanilla),
    };
    let ed_ok = match legacy {
        Some(l) => b.legacy == l,
        None => true,
    };
    st_ok && ed_ok
}

/// Ordering relation of a listing: by insertion time or by priority weight,
/// ascending or descending; an unordered listing constrains nothing.
pub open spec fn spec_le(order: BugOrder, a: BugSummaryView, b: BugSummaryView) -> bool {
    match order {
        BugOrder::Unordered => true,
        BugOrder::Chronological(asc) => if asc {
            a.timestamp <= b.timestamp
        } else {
            a.timestamp >= b.timestamp
        },
        BugOrder::Priority(asc) => if asc {
            a.status.spec_weight() <= b.status.spec_weight()
        } else {
            a.status.spec_weight() >= b.status.spec_weight()
        },
    }
}

/// The relation is total: two records are always comparable.
pub proof fn lemma_le_total(order: BugOrder, a: BugSummaryView, b: BugSummaryView)
    ensures
        spec_le(order, a, b) || spec_le(order, b, a),
{
}

/// The relation is transitive.
pub proof fn lemma_le_trans(order: BugOrder, a: BugSummaryView, b: BugSummaryView, c: BugSummaryView)
    requires
        spec_le(order, a, b),
        spec_le(order, b, c),
    ensures
        spec_le(order, a, c),
{
}

/// A listing is ordered when every pair of lines respects the relation.
pub open spec fn spec_ordered(order: BugOrder, s: Seq<BugSummaryView>) -> bool {
    forall|i: int, j: int| 0 <= i < j < s.len() ==> spec_le(order, s[i], s[j])
}

fn le(order: BugOrder, a: &BugSummary, b: &BugSummary) -> (r: bool)
    ensures
        r == spec_le(order, a@, b@),
{
    match order {
        BugOrder::Unordered => true,
        BugOrder::Chronological(asc) => if asc {
            a.timestamp <= b.timestamp
        } else {
            a.timestamp >= b.timestamp
        },
        BugOrder::Priority(asc) => if asc {
            a.status.weight() <= b.status.weight()
        } else {
            a.status.weight() >= b.status.weight()
        },
    }
}

/// Keeps exactly the records the request matches, in their given order.
fn filter_records(
    records: &Vec<BugSummary>,
    status: Option<BugStatus>,
    legacy: Option<bool>,
) -> (out: Vec<BugSummary>)
    ensures
        views(out@) == views(records@).filter(
            |b: BugSummaryView| spec_matches(b, status, legacy),
        ),
        out@.len() <= records@.len(),
{
    let ghost pred = |b: BugSummaryView| spec_matches(b, status, legacy);
    let mut out: Vec<BugSummary> = Vec::new();
    let mut i: usize = 0;
    proof {
        reveal(Seq::filter);
        assert(views(records@).take(0) =~= Seq::<BugSummaryView>::empty());
        assert(views(out@) =~= views(records@).take(0).filter(pred));
    }
    while i < records.len()
        invariant
            0 <= i <= records.len(),
            views(records@).len() == records@.len(),
            pred == (|b: BugSummaryView| spec_matches(b, status, legacy)),
            views(out@) == views(records@).take(i as int).filter(pred),
            out@.len() <= i,
        decreases records.len() - i,
    {
        let keep = record_matches(&records[i], status, legacy);
        proof {
            reveal(Seq::filter);
            let pre = views(records@).take(i as int);
            let now = views(records@).take(i + 1);
            assert(now.drop_last() =~= pre);
            assert(now.last() == views(records@)[i as int]);
            assert(views(records@)[i as int] == records@[i as int]@);
        }
        if keep {
            out.push(records[i].duplicate());
            proof {
                assert(views(out@) =~= views(records@).take(i as int).filter(pred).push(
                    records@[i as int]@,
                ));
            }
        }
        i = i + 1;
    }
    proof {
        assert(views(records@).take(records@.len() as int) =~= views(records@));
    }
    out
}

/// Inserts one record into an ordered listing, keeping it ordered.
fn sorted_insert(out: &mut Vec<BugSummary>, x: BugSummary, order: BugOrder)
    requires
        spec_ordered(order, views(old(out)@)),
    ensures
        spec_ordered(order, views(final(out)@)),
        views(final(out)@).to_multiset() == views(old(out)@).to_multiset().insert(x@),
        final(out)@.len() == old(out)@.len() + 1,
{
    let ghost pre = views(out@);
    let mut pos: usize = 0;
    while pos < out.len() && le(order, &out[pos], &x)
        invariant
            0 <= pos <= out@.len(),
            *out == *old(out),
            pre == views(out@),
            pre.len() == out@.len(),
            forall|k: int| 0 <= k < pos ==> spec_le(order, pre[k], x@),
        decreases out@.len() - pos,
    {
        proof {
            assert(pre[pos as int] == out@[pos as int]@);
        }
        pos = pos + 1;
    }
    proof {
        if pos < out@.len() {
            assert(pre[pos as int] == out@[pos as int]@);
            lemma_le_total(order, out@[pos as int]@, x@);
            assert(spec_le(order, x@, pre[pos as int]));
            assert forall|k: int| pos <= k < pre.len() implies spec_le(order, x@, pre[k]) by {
                if k > pos {
                    assert(spec_le(order, pre[pos as int], pre[k]));
                }
                lemma_le_trans(order, x@, pre[pos as int], pre[k]);
            }
        }
    }
    out.insert(pos, x);
    proof {
        let now = views(out@);
        assert(now =~= pre.insert(pos as int, x@));
        to_multiset_insert(pre, pos as int, x@);
        assert forall|i: int, j: int| 0 <= i < j < now.len() implies spec_le(
            order,
            now[i],
            now[j],
        ) by {
            if i < pos && j < pos {
                assert(now[i] == pre[i] && now[j] == pre[j]);
            } else if i < pos && j == pos {
                assert(now[i] == pre[i] && now[j] == x@);
            } else if i < pos && j > pos {
                assert(now[i] == pre[i] && now[j] == pre[j - 1]);
            } else if i == pos {
                assert(now[i] == x@ && now[j] == pre[j - 1]);
            } else {
                assert(now[i] == pre[i - 1] && now[j] == pre[j - 1]);
            }
        }
    }
}

/// An ordered copy of the given records: the same lines as a multiset,
/// arranged to respect the requested order.
fn sorted_copy(v: &Vec<BugSummary>, order: BugOrder) -> (out: Vec<BugSummary>)
    ensures
        views(out@).to_multiset() == views(v@).to_multiset(),
        spec_ordered(order, views(out@)),
        out@.len() == v@.len(),
{
    let mut out: Vec<BugSummary> = Vec::new();
    let mut i: usize = 0;
    proof {
        broadcast use group_to_multiset_ensures;

        assert(views(v@).take(0) =~= Seq::<BugSummaryView>::empty());
        assert(views(out@) =~= Seq::<BugSummaryView>::empty());
        assert(views(out@).to_multiset() =~= views(v@).take(0).to_multiset());
    }
    while i < v.len()
        invariant
            0 <= i <= v@.len(),
            views(v@).len() == v@.len(),
            out@.len() == i,
            spec_ordered(order, views(out@)),
            views(out@).to_multiset() == views(v@).take(i as int).to_multiset(),
        decreases v.len() - i,
    {
        let x = v[i].duplicate();
        proof {
            broadcast use group_to_multiset_ensures;

            assert(views(v@).take(i + 1) =~= views(v@).take(i as int).push(views(v@)[i as int]));
            assert(views(v@)[i as int] == v@[i as int]@);
        }
        sorted_insert(&mut out, x, order);
        i = i + 1;
    }
    proof {
        assert(views(v@).take(v@.len() as int) =~= views(v@));
    }
    out
}

/// Start of the requested window, clamped to the end of the listing.
pub open spec fn spec_window_start(page: u32, limit: u32, total: int) -> int {
    let s0 = (page - 1) * (limit as int);
    if s0 <= total {
        s0
    } else {
        total
    }
}

/// End of the requested window, clamped to the end of the listing.
pub open spec fn spec_window_end(page: u32, limit: u32, total: int) -> int {
    let e0 = (page - 1) * (limit as int) + limit;
    if e0 <= total {
        e0
    } else {
        total
    }
}

/// Copies the one window of `v` that the page shows; never more than
/// `limit` records.
fn window(v: &Vec<BugSummary>, page: u32, limit: u32) -> (out: Vec<BugSummary>)
    requires
        page >= 1,
        limit >= 1,
    ensures
        views(out@) == views(v@).subrange(
            spec_window_start(page, limit, v@.len() as int),
            spec_window_end(page, limit, v@.len() as int),
        ),
        out@.len() <= limit,
{
    let len64: u64 = v.len() as u64;
    proof {
        assert((page as u64 - 1) * (limit as u64) <= 0xFFFF_FFFFu64 * 0xFFFF_FFFFu64)
            by (nonlinear_arith)
            requires
                (page as u64) >= 1,
                (page as u64) <= 0xFFFF_FFFF,
                (limit as u64) <= 0xFFFF_FFFF,
        ;
    }
    let s0: u64 = (page as u64 - 1) * (limit as u64);
    let start64: u64 = if s0 <= len64 {
        s0
    } else {
        len64
    };
    let e1: u64 = s0 + limit as u64;
    let end64: u64 = if e1 <= len64 {
        e1
    } else {
        len64
    };
    let start: usize = start64 as usize;
    let end: usize = end64 as usize;
    let mut out: Vec<BugSummary> = Vec::new();
    let mut i: usize = start;
    while i < end
        invariant
            start <= i <= end <= v@.len(),
            start == spec_window_start(page, limit, v@.len() as int),
            end == spec_window_end(page, limit, v@.len() as int),
            out@.len() == i - start,
            forall|k: int| 0 <= k < out@.len() ==> #[trigger] views(out@)[k] == views(v@)[start
                + k],
        decreases end - i,
    {
        let ghost pre = out@;
        let x = v[i].duplicate();
        out.push(x);
        proof {
            assert(out@ == pre.push(x));
            assert(views(v@)[i as int] == v@[i as int]@);
            assert forall|k: int| 0 <= k < out@.len() implies #[trigger] views(out@)[k] == views(
                v@,
            )[start + k] by {
                assert(views(out@)[k] == out@[k]@);
                if k < pre.len() {
                    assert(out@[k] == pre[k]);
                    assert(views(pre)[k] == pre[k]@);
                    assert(views(pre)[k] == views(v@)[start + k]);
                } else {
                    assert(out@[k] == x);
                    assert(start + k == i as int);
                }
            }
        }
        i = i + 1;
    }
    proof {
        assert(views(out@) =~= views(v@).subrange(start as int, end as int));
    }
    out
}

/// Computes one page of the listing: the matching records, ordered as
/// requested, cut to the requested window, together with the total count of
/// matching records. The window never holds more than `limit` records, each
/// of its records matches the request, and consecutive lines respect the
/// requested order.
pub fn list_page(records: &Vec<BugSummary>, req: &ListRequest) -> (r: (Vec<BugSummary>, u32))
    requires
        req.wf(),
        records@.len() <= u32::MAX,
    ensures
        ({
            let flt = views(records@).filter(
                |b: BugSummaryView| spec_matches(b, req.status, req.legacy),
            );
            &&& r.1 == flt.len()
            &&& r.0@.len() <= req.limit
            &&& r.0@.len() == spec_window_end(req.page, req.limit, flt.len() as int)
                - spec_window_start(req.page, req.limit, flt.len() as int)
            &&& spec_ordered(req.order, views(r.0@))
            &&& forall|i: int| 0 <= i < r.0@.len() ==> spec_matches(
                #[trigger] views(r.0@)[i],
                req.status,
                req.legacy,
            )
        }),
{
    let ghost pred = |b: BugSummaryView| spec_matches(b, req.status, req.legacy);
    let filtered = filter_records(records, req.status, req.legacy);
    let total: u32 = filtered.len() as u32;
    let ordered = sorted_copy(&filtered, req.order);
    let out = window(&ordered, req.page, req.limit);
    proof {
        broadcast use group_to_multiset_ensures;

        let flt = views(records@).filter(pred);
        assert(views(filtered@) == flt);
        assert(views(ordered@).len() == ordered@.len());
        let start = spec_window_start(req.page, req.limit, ordered@.len() as int);
        let end = spec_window_end(req.page, req.limit, ordered@.len() as int);
        assert(views(out@) == views(ordered@).subrange(start, end));
        assert(views(out@).len() == end - start);
        assert forall|i: int| 0 <= i < out@.len() implies spec_matches(
            #[trigger] views(out@)[i],
            req.status,
            req.legacy,
        ) by {
            let x = views(out@)[i];
            assert(x == views(ordered@).subrange(start, end)[i]);
            assert(0 <= start + i < views(ordered@).len());
            assert(x == views(ordered@)[start + i]);
            assert(views(ordered@).contains(x));
            assert(views(ordered@).to_multiset().count(x) > 0);
            assert(flt.to_multiset().count(x) > 0);
            assert(flt.contains(x));
            let k = choose|k: int| 0 <= k < flt.len() && flt[k] == x;
            views(records@).lemma_filter_pred(pred, k);
        }
    }
    (out, total)
}

} // verus!
