//! The decisions that the provided calls of a backend make around its other calls.
use vstd::prelude::*;

verus! {

/// The values found by a series of lookups, in order, skipping the lookups that found nothing.
pub open spec fn present_values<V, E>(replies: Seq<Result<Option<V>, E>>) -> Seq<V>
    decreases replies.len(),
{
    if replies.len() == 0 {
        Seq::empty()
    } else {
        let before = present_values(replies.drop_last());
        match replies.last() {
            Ok(Some(v)) => before.push(v),
            _ => before,
        }
    }
}

/// Whether a lookup found a value.
pub open spec fn is_found<V, E>(reply: Result<Option<V>, E>) -> bool {
    reply matches Ok(Some(_))
}

/// The value that a lookup found.
pub open spec fn found_value<V, E>(reply: Result<Option<V>, E>) -> V {
    reply->Ok_0->Some_0
}

/// The values found are gathered one lookup at a time: a lookup that found a value adds it
/// after the values found before it, any other lookup adds nothing; and the values found by two
/// series of lookups in turn are those of the first followed by those of the second.
pub proof fn lemma_present_values_steps<V, E>(
    replies: Seq<Result<Option<V>, E>>,
    more: Seq<Result<Option<V>, E>>,
    v: V,
    e: E,
)
    ensures
        present_values(replies.push(Ok(Some(v)))) == present_values(replies).push(v),
        present_values(replies.push(Ok(None))) == present_values(replies),
        present_values(replies.push(Err(e))) == present_values(replies),
        present_values(replies + more) == present_values(replies) + present_values(more),
    decreases more.len(),
{
    assert(replies.push(Ok(Some(v))).drop_last() =~= replies);
    assert(replies.push(Ok(None)).drop_last() =~= replies);
    assert(replies.push(Err(e)).drop_last() =~= replies);
    if more.len() == 0 {
        assert(replies + more =~= replies);
        assert(present_values(replies) + present_values(more) =~= present_values(replies));
    } else {
        lemma_present_values_steps(replies, more.drop_last(), v, e);
        assert((replies + more).drop_last() =~= replies + more.drop_last());
        assert((replies + more).last() == more.last());
        match more.last() {
            Ok(Some(w)) => {
                assert(present_values(replies) + present_values(more.drop_last()).push(w)
                    =~= (present_values(replies) + present_values(more.drop_last())).push(w));
            },
            _ => {},
        }
    }
}

/// The values found are exactly the values of the lookups that found one, in the order of the
/// lookups: as many as there are such lookups, the `i`-th being the value of the `i`-th.
pub proof fn lemma_present_values_are_found<V, E>(replies: Seq<Result<Option<V>, E>>)
    ensures
        present_values(replies) == replies.filter(|r: Result<Option<V>, E>| is_found(r)).map_values(
            |r: Result<Option<V>, E>| found_value(r),
        ),
    decreases replies.len(),
{
    let pred = |r: Result<Option<V>, E>| is_found(r);
    let val = |r: Result<Option<V>, E>| found_value(r);
    if replies.len() == 0 {
        reveal(Seq::filter);
        assert(replies.filter(pred).map_values(val) =~= Seq::<V>::empty());
    } else {
        let rest = replies.drop_last();
        lemma_present_values_are_found(rest);
        assert(rest.push(replies.last()) =~= replies);
        rest.lemma_filter_push(replies.last(), pred);
        if is_found(replies.last()) {
            assert(rest.filter(pred).push(replies.last()).map_values(val) =~= rest.filter(
                pred,
            ).map_values(val).push(found_value(replies.last())));
        }
    }
}

/// The error of the first failed lookup, if any failed.
pub open spec fn first_failure<V, E>(replies: Seq<Result<Option<V>, E>>) -> Option<E>
    decreases replies.len(),
{
    if replies.len() == 0 {
        None
    } else {
        match first_failure(replies.drop_last()) {
            Some(e) => Some(e),
            None => match replies.last() {
                Err(e) => Some(e),
                _ => None,
            },
        }
    }
}

/// Gathers the replies of one lookup per requested entry, as `get_all` does: the values found,
/// in the order of the requests, or the error of the first lookup that failed.
pub fn collect_present<V, E>(replies: Vec<Result<Option<V>, E>>) -> (r: Result<Vec<V>, E>)
    ensures
        first_failure(replies@) matches Some(e) ==> r == Err::<Vec<V>, E>(e),
        first_failure(replies@) is None ==> (r matches Ok(vs) && vs@ == present_values(replies@)),
{
    let ghost given = replies@;
    let mut pending = replies;
    let mut values: Vec<V> = Vec::new();
    let n = pending.len();
    let mut i: usize = 0;
    while i < n
        invariant
            n == given.len(),
            pending@.len() == n,
            given == replies@,
            i <= n,
            forall|j: int| i <= j < n ==> pending@[j] == given[j],
            first_failure(given.subrange(0, i as int)) is None,
            values@ == present_values(given.subrange(0, i as int)),
        decreases n - i,
    {
        let ghost before = pending@;
        let mut item: Result<Option<V>, E> = Ok(None);
        std::mem::swap(&mut pending[i], &mut item);
        let ghost prefix = given.subrange(0, i + 1);
        proof {
            assert(item == before[i as int]);
            assert(item == given[i as int]);
            assert(prefix.drop_last() =~= given.subrange(0, i as int));
            assert(prefix.last() == item);
            assert forall|j: int| i < j < n implies pending@[j] == given[j] by {
                assert(pending@[j] == before[j]);
            }
        }
        match item {
            Err(e) => {
                proof {
                    assert(first_failure(prefix) == Some(e));
                    lemma_first_failure_extends(given, i + 1);
                }
                return Err(e);
            },
            Ok(Some(v)) => {
                values.push(v);
            },
            Ok(None) => {},
        }
        i += 1;
    }
    assert(given.subrange(0, n as int) =~= given);
    Ok(values)
}

/// A failure found in a prefix of the replies is the first failure of all of them.
proof fn lemma_first_failure_extends<V, E>(replies: Seq<Result<Option<V>, E>>, k: int)
    requires
        0 <= k <= replies.len(),
        first_failure(replies.subrange(0, k)) is Some,
    ensures
        first_failure(replies) == first_failure(replies.subrange(0, k)),
    decreases replies.len() - k,
{
    if k < replies.len() {
        let longer = replies.subrange(0, k + 1);
        assert(longer.drop_last() =~= replies.subrange(0, k));
        lemma_first_failure_extends(replies, k + 1);
    } else {
        assert(replies.subrange(0, k) =~= replies);
    }
}

} // verus!
