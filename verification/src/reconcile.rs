//! The reconciliation engine: comparing a round's records against the
//! previous round's and keeping only the unseen ones.
//!
//! A record with no data stands for a node the adapter could not parse; it
//! is never published and is discarded here.

use vstd::prelude::*;

use crate::flat::Flat;
use crate::flat::FlatView;
use crate::flat::equivalent;

verus! {

/// The mathematical values of a round's records.
pub open spec fn views_of(v: Seq<Flat>) -> Seq<FlatView> {
    v.map_values(|f: Flat| f@)
}

/// Whether some record of `prev` is the same listing as `f`.
pub open spec fn seen_before(f: FlatView, prev: Seq<FlatView>) -> bool {
    exists|j: int| 0 <= j < prev.len() && equivalent(f, prev[j])
}

/// The records of a round that are new: complete (data present) and not the
/// same listing as any record of the previous round.
pub open spec fn new_records(current: Seq<FlatView>, prev: Seq<FlatView>) -> Seq<FlatView> {
    current.filter(|f: FlatView| f.data is Some && !seen_before(f, prev))
}

/// Whether some record of the previous round is the same listing as `f`.
fn seen_in_previous(f: &Flat, previous: &Vec<Flat>) -> (r: bool)
    ensures
        r == seen_before(f@, views_of(previous@)),
{
    let ghost prev = views_of(previous@);
    let mut j: usize = 0;
    while j < previous.len()
        invariant
            j <= previous@.len(),
            prev == views_of(previous@),
            prev.len() == previous@.len(),
            forall|t: int| 0 <= t < j ==> !equivalent(f@, #[trigger] prev[t]),
        decreases previous@.len() - j,
    {
        if *f == previous[j] {
            proof {
                assert(prev[j as int] == previous@[j as int]@);
            }
            return true;
        }
        proof {
            assert(prev[j as int] == previous@[j as int]@);
        }
        j = j + 1;
    }
    false
}

/// Keeps the records of the current round that are new: complete and not the
/// same listing, by the identity rule, as any record of the previous round.
pub fn filter_new_flats(current: &Vec<Flat>, previous: &Vec<Flat>) -> (r: Vec<Flat>)
    ensures
        views_of(r@) == new_records(views_of(current@), views_of(previous@)),
{
    let ghost prev = views_of(previous@);
    let ghost cur = views_of(current@);
    let mut out: Vec<Flat> = Vec::new();
    let mut i: usize = 0;
    while i < current.len()
        invariant
            i <= current@.len(),
            prev == views_of(previous@),
            cur == views_of(current@),
            cur.len() == current@.len(),
            views_of(out@) == new_records(cur.subrange(0, i as int), prev),
        decreases current@.len() - i,
    {
        let ghost pre = cur.subrange(0, i as int);
        let ghost post = cur.subrange(0, i + 1);
        let f = &current[i];
        proof {
            assert(cur[i as int] == current@[i as int]@);
            assert(post.drop_last() =~= pre);
            assert(post.last() == cur[i as int]);
        }
        let keep = if f.data.is_some() {
            !seen_in_previous(f, previous)
        } else {
            false
        };
        if keep {
            let ghost out0 = out@;
            out.push(f.clone());
            proof {
                reveal(Seq::filter);
                assert(new_records(post, prev) == new_records(pre, prev).push(f@));
                assert(views_of(out@) =~= views_of(out0).push(f@));
            }
        } else {
            proof {
                reveal(Seq::filter);
                assert(new_records(post, prev) == new_records(pre, prev));
            }
        }
        i = i + 1;
    }
    proof {
        assert(cur.subrange(0, cur.len() as int) =~= cur);
    }
    out
}

/// Reconciliation round-trip: when the previous round holds one record, and
/// the current round holds a record seen there and a complete record not
/// seen there, exactly the unseen record is new.
pub proof fn lemma_reconcile_pair(p1: FlatView, q1: FlatView, p2: FlatView)
    requires
        equivalent(q1, p1),
        !equivalent(p2, p1),
        p2.data is Some,
    ensures
        new_records(seq![q1, p2], seq![p1]) =~= seq![p2],
{
    let prev = seq![p1];
    let cur = seq![q1, p2];
    assert(seen_before(q1, prev)) by {
        assert(prev[0] == p1);
        assert(equivalent(q1, prev[0]));
    }
    assert(!seen_before(p2, prev)) by {
        assert forall|j: int| 0 <= j < prev.len() implies !equivalent(p2, prev[j]) by {
            assert(prev[j] == p1);
        }
    }
    reveal(Seq::filter);
    assert(cur.drop_last() =~= seq![q1]);
    assert(seq![q1].drop_last() =~= Seq::<FlatView>::empty());
    assert(new_records(Seq::<FlatView>::empty(), prev) =~= Seq::<FlatView>::empty());
    assert(new_records(seq![q1], prev) =~= Seq::<FlatView>::empty());
    assert(new_records(cur, prev) =~= new_records(seq![q1], prev).push(p2));
}

} // verus!
