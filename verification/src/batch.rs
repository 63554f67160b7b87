//! Batch planning: turning the newest-first candidate list into the
//! oldest-first delivery order and the cursor value to persist.

use vstd::prelude::*;
use crate::notice::Notice;

verus! {

/// The numbers of a notice sequence, in the same order.
pub open spec fn numbers_of(s: Seq<Notice>) -> Seq<int> {
    s.map(|i: int, n: Notice| n.number as int)
}

/// Strictly descending by `number`: the order the listing page yields.
pub open spec fn strictly_descending(s: Seq<Notice>) -> bool {
    forall|i: int, j: int| 0 <= i < j < s.len() ==> s[i].number > s[j].number
}

/// Strictly ascending by `number`: the order a batch is delivered in.
pub open spec fn strictly_ascending(s: Seq<Notice>) -> bool {
    forall|i: int, j: int| 0 <= i < j < s.len() ==> s[i].number < s[j].number
}

/// No member's `number` exceeds `m`, and some member reaches it.
pub open spec fn is_max_number(s: Seq<Notice>, m: int) -> bool {
    &&& forall|i: int| 0 <= i < s.len() ==> s[i].number <= m
    &&& exists|i: int| 0 <= i < s.len() && s[i].number == m
}

/// The plan a run executes after the candidates are complete: `None`
/// when there is nothing to deliver, otherwise the batch in delivery
/// order together with the cursor value to persist afterwards.
pub open spec fn plan_spec(candidates: Seq<Notice>) -> Option<(Seq<Notice>, int)> {
    if candidates.len() == 0 {
        None
    } else {
        Some((candidates.reverse(), candidates[0].number as int))
    }
}

/// Turns the newest-first candidate list into the delivery plan: the
/// same notices oldest-first, and the first (newest) candidate's
/// `number` as the next cursor. `None` exactly when there are no
/// candidates, in which case the run delivers nothing and leaves the
/// cursor untouched.
pub fn plan_delivery(candidates: Vec<Notice>) -> (r: Option<(Vec<Notice>, i64)>)
    ensures
        match r {
            Some(p) => plan_spec(candidates@) matches Some(q) && p.0@ == q.0 && p.1 as int == q.1,
            None => candidates@.len() == 0 && plan_spec(candidates@) is None,
        },
{
    if candidates.len() == 0 {
        return None;
    }
    let new_cursor = candidates[0].number;
    let ghost orig = candidates@;
    let mut rest = candidates;
    let mut batch: Vec<Notice> = Vec::new();
    while rest.len() > 0
        invariant
            rest@.len() <= orig.len(),
            batch@ == orig.subrange(rest@.len() as int, orig.len() as int).reverse(),
            rest@ == orig.subrange(0, rest@.len() as int),
        decreases rest@.len(),
    {
        let ghost pre = rest@;
        let ghost prebatch = batch@;
        let n = rest.pop().unwrap();
        batch.push(n);
        proof {
            let k = pre.len() - 1;
            let ll = orig.len() as int;
            assert(pre == orig.subrange(0, k + 1));
            assert(rest@ == pre.drop_last());
            assert forall|i: int| 0 <= i < k implies rest@[i] == orig.subrange(0, k)[i] by {
                assert(rest@[i] == pre[i]);
                assert(orig.subrange(0, k + 1)[i] == orig[i]);
                assert(orig.subrange(0, k)[i] == orig[i]);
            }
            assert(rest@ =~= orig.subrange(0, k));
            assert(n == pre[k]);
            assert(orig.subrange(0, k + 1)[k] == orig[k]);
            assert(batch@ == prebatch.push(n));
            let tail = orig.subrange(k, ll);
            assert forall|i: int| 0 <= i < batch@.len() implies batch@[i] == tail.reverse()[i] by {
                assert(tail.reverse()[i] == tail[tail.len() - 1 - i]);
                assert(tail[tail.len() - 1 - i] == orig[ll - 1 - i]);
                if i < prebatch.len() {
                    let t2 = orig.subrange(k + 1, ll);
                    assert(batch@[i] == prebatch[i]);
                    assert(prebatch[i] == t2.reverse()[i]);
                    assert(t2.reverse()[i] == t2[t2.len() - 1 - i]);
                    assert(t2[t2.len() - 1 - i] == orig[ll - 1 - i]);
                } else {
                    assert(batch@[i] == n);
                    assert(orig[ll - 1 - i] == orig[k]);
                }
            }
            assert(batch@ =~= orig.subrange(k, ll).reverse());
        }
    }
    proof {
        assert(batch@ =~= orig.reverse());
    }
    Some((batch, new_cursor))
}

/// Delivery order: when the candidates arrive strictly descending by
/// `number` — the listing page's newest-first order — the planned
/// batch is strictly ascending, so a run delivers oldest first.
pub proof fn lemma_plan_delivery_ascending(candidates: Seq<Notice>)
    requires
        strictly_descending(candidates),
        plan_spec(candidates) is Some,
    ensures
        strictly_ascending(plan_spec(candidates)->Some_0.0),
{
    let b = plan_spec(candidates)->Some_0.0;
    assert forall|i: int, j: int| 0 <= i < j < b.len() implies b[i].number < b[j].number by {
        assert(b[i] == candidates[b.len() - 1 - i]);
        assert(b[j] == candidates[b.len() - 1 - j]);
    }
}

/// Cursor advance: when the candidates arrive strictly descending, a
/// non-empty plan's cursor is exactly the greatest `number` of the
/// batch it delivers; an empty plan exists only for an empty candidate
/// list, so the cursor is then left as it was.
pub proof fn lemma_plan_delivery_cursor(candidates: Seq<Notice>)
    requires
        strictly_descending(candidates),
    ensures
        candidates.len() > 0 ==> (plan_spec(candidates) matches Some(p) && is_max_number(p.0, p.1)),
        candidates.len() == 0 ==> plan_spec(candidates) is None,
{
    if candidates.len() > 0 {
        let p = plan_spec(candidates)->Some_0;
        assert forall|i: int| 0 <= i < p.0.len() implies p.0[i].number <= p.1 by {
            assert(p.0[i] == candidates[p.0.len() - 1 - i]);
        }
        assert(p.0[p.0.len() - 1] == candidates[0]);
    }
}

} // verus!
