use vstd::prelude::*;

use crate::position::{range_between, HasPosition, Position};

verus! {

/// What a range query yields from the host's answer: in the host's order, each
/// element that converted to the caller's type and stands within `range` of
/// `origin`. An element that failed to convert (`None`) is left out, and so is
/// one the host placed too far away.
pub open spec fn in_range_kept<T: HasPosition>(
    origin: Position,
    range: u8,
    answer: Seq<Option<T>>,
) -> Seq<T>
    decreases answer.len(),
{
    if answer.len() == 0 {
        Seq::empty()
    } else {
        let rest = in_range_kept(origin, range, answer.drop_last());
        let last = answer.last();
        if last is Some && range_between(origin, last->Some_0.position()) <= range {
            rest.push(last->Some_0)
        } else {
            rest
        }
    }
}

/// What a closest-object query yields from the host's answer: the host's pick
/// where there is one and it converted to the caller's type, else nothing.
pub open spec fn closest_kept<T>(answer: Option<Option<T>>) -> Option<T> {
    match answer {
        Some(Some(t)) => Some(t),
        _ => None,
    }
}

/// Every converted element of a host answer is one of the candidates sent.
pub open spec fn drawn_from<T>(candidates: Seq<T>, answer: Seq<Option<T>>) -> bool {
    forall|j: int|
        0 <= j < answer.len() && (#[trigger] answer[j]) is Some ==> candidates.contains(
            answer[j]->Some_0,
        )
}

/// Keeps, in order, the converted elements of `answer` that lie within `range`
/// of `origin`.
pub fn keep_in_range<T: HasPosition>(origin: Position, range: u8, answer: Vec<Option<T>>) -> (r:
    Vec<T>)
    ensures
        r@ == in_range_kept(origin, range, answer@),
        forall|j: int|
            0 <= j < r@.len() ==> range_between(origin, (#[trigger] r@[j]).position()) <= range,
{
    let ghost sent = answer@;
    let mut answer = answer;
    let mut out: Vec<T> = Vec::new();
    let n = answer.len();
    let mut i: usize = 0;
    while i < n
        invariant
            0 <= i <= n,
            n == sent.len(),
            answer@.len() == n,
            forall|j: int| i <= j < n ==> answer@[j] == sent[j],
            out@ == in_range_kept(origin, range, sent.subrange(0, i as int)),
        decreases n - i,
    {
        let mut slot: Option<T> = None;
        answer.set_and_swap(i, &mut slot);
        proof {
            assert(sent.subrange(0, i + 1).drop_last() =~= sent.subrange(0, i as int));
        }
        match slot {
            Some(t) => {
                let p = t.pos();
                if origin.range_to(&p) <= range {
                    out.push(t);
                }
            },
            None => {},
        }
        i = i + 1;
    }
    proof {
        assert(sent.subrange(0, n as int) =~= sent);
        lemma_kept_within_range(origin, range, sent);
    }
    out
}

/// Picks the host's answer to a closest-object query where it converted.
pub fn keep_closest<T>(answer: Option<Option<T>>) -> (r: Option<T>)
    ensures
        r == closest_kept(answer),
{
    match answer {
        Some(Some(t)) => Some(t),
        _ => None,
    }
}

/// A range query never yields an object beyond the range asked for, whatever the
/// host answered.
pub proof fn lemma_kept_within_range<T: HasPosition>(
    origin: Position,
    range: u8,
    answer: Seq<Option<T>>,
)
    ensures
        forall|j: int|
            0 <= j < in_range_kept(origin, range, answer).len() ==> range_between(
                origin,
                (#[trigger] in_range_kept(origin, range, answer)[j]).position(),
            ) <= range,
    decreases answer.len(),
{
    if answer.len() > 0 {
        let rest = in_range_kept(origin, range, answer.drop_last());
        let kept = in_range_kept(origin, range, answer);
        lemma_kept_within_range(origin, range, answer.drop_last());
        assert forall|j: int| 0 <= j < kept.len() implies range_between(
            origin,
            (#[trigger] kept[j]).position(),
        ) <= range by {
            if j < rest.len() {
                assert(kept[j] == rest[j]);
            }
        }
    }
}

/// An element of the host's answer that failed to convert changes nothing for
/// the others: the result is the one the answer without it gives.
pub proof fn lemma_failed_conversion_is_dropped<T: HasPosition>(
    origin: Position,
    range: u8,
    answer: Seq<Option<T>>,
    i: int,
)
    requires
        0 <= i < answer.len(),
        answer[i] is None,
    ensures
        in_range_kept(origin, range, answer) == in_range_kept(origin, range, answer.remove(i)),
    decreases answer.len(),
{
    if i == answer.len() - 1 {
        assert(answer.remove(i) =~= answer.drop_last());
    } else {
        assert(answer.remove(i).drop_last() =~= answer.drop_last().remove(i));
        assert(answer.remove(i).last() == answer.last());
        lemma_failed_conversion_is_dropped(origin, range, answer.drop_last(), i);
    }
}

/// A range query over no candidates finds nothing, whatever the range, as long
/// as the host answers with candidates it was sent (or values that fail to
/// convert).
pub proof fn lemma_no_candidates_in_range<T: HasPosition>(
    origin: Position,
    range: u8,
    candidates: Seq<T>,
    answer: Seq<Option<T>>,
)
    requires
        candidates.len() == 0,
        drawn_from(candidates, answer),
    ensures
        in_range_kept(origin, range, answer) == Seq::<T>::empty(),
    decreases answer.len(),
{
    if answer.len() > 0 {
        let shorter = answer.drop_last();
        assert forall|j: int| 0 <= j < shorter.len() && (#[trigger] shorter[j]) is Some implies candidates.contains(shorter[j]->Some_0) by {
            assert(shorter[j] == answer[j]);
        }
        lemma_no_candidates_in_range(origin, range, candidates, shorter);
        if answer.last() is Some {
            assert(answer[answer.len() - 1] is Some);
            assert(candidates.contains(answer.last()->Some_0));
        }
    }
}

/// A closest-object query over no candidates finds nothing, as long as the
/// host's pick, if any, is a candidate it was sent or fails to convert.
pub proof fn lemma_no_candidates_no_closest<T>(candidates: Seq<T>, answer: Option<Option<T>>)
    requires
        candidates.len() == 0,
        answer matches Some(Some(t)) ==> candidates.contains(t),
    ensures
        closest_kept(answer) is None,
{
}

/// The caller cannot tell why a closest-object query found nothing: the host
/// reporting no result and the host's pick failing to convert both give `None`,
/// and these are the only ways to get it.
pub proof fn lemma_none_is_uniform<T>(answer: Option<Option<T>>)
    ensures
        closest_kept(answer) is None <==> (answer is None || answer == Some(None::<T>)),
{
}

} // verus!
