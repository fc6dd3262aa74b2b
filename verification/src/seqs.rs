//! Sequences of steps and of results: what the generators' contracts are
//! stated with.

use crate::error::GenError;
use vstd::prelude::*;

verus! {

/// The views of the items of a sequence.
pub open spec fn views<T: View>(s: Seq<T>) -> Seq<T::V> {
    s.map_values(|t: T| t@)
}

/// Appending an item appends its view.
pub proof fn lemma_views_push<T: View>(s: Seq<T>, t: T)
    ensures
        views(s.push(t)) == views(s).push(t@),
{
    assert(views(s.push(t)) =~= views(s).push(t@));
}

/// The values that a sequence of references points to.
pub open spec fn derefs<T>(s: Seq<&T>) -> Seq<T> {
    s.map_values(|r: &T| *r)
}

/// Appending a reference appends what it points to.
pub proof fn lemma_derefs_push<T>(s: Seq<&T>, r: &T)
    ensures
        derefs(s.push(r)) == derefs(s).push(*r),
{
    assert(derefs(s.push(r)) =~= derefs(s).push(*r));
}

/// The values that are present, in order.
pub open spec fn kept<T>(s: Seq<Option<T>>) -> Seq<T>
    decreases s.len(),
{
    if s.len() == 0 {
        Seq::empty()
    } else {
        match s.last() {
            Some(x) => kept(s.drop_last()).push(x),
            None => kept(s.drop_last()),
        }
    }
}

/// Keeping the present values of one step more.
pub proof fn lemma_kept_step<T>(s: Seq<Option<T>>, x: Option<T>)
    ensures
        kept(s.push(x)) == match x {
            Some(v) => kept(s).push(v),
            None => kept(s),
        },
{
    assert(s.push(x).drop_last() == s);
}

/// The results of a sequence of steps, gathered: all the values in order if
/// every step succeeded, otherwise the error of the first step that failed.
pub open spec fn gather<T>(steps: Seq<Result<T, GenError>>) -> Result<Seq<T>, GenError>
    decreases steps.len(),
{
    if steps.len() == 0 {
        Ok(Seq::empty())
    } else {
        match gather(steps.drop_last()) {
            Err(e) => Err(e),
            Ok(done) => match steps.last() {
                Ok(x) => Ok(done.push(x)),
                Err(e) => Err(e),
            },
        }
    }
}

/// Gathering one step more.
pub proof fn lemma_gather_step<T>(steps: Seq<Result<T, GenError>>, n: int)
    requires
        0 <= n < steps.len(),
    ensures
        gather(steps.take(n + 1)) == match gather(steps.take(n)) {
            Err(e) => Err(e),
            Ok(done) => match steps[n] {
                Ok(x) => Ok(done.push(x)),
                Err(e) => Err(e),
            },
        },
{
    assert(steps.take(n + 1).drop_last() == steps.take(n));
}

/// A gathered success has one value for each step, and each step succeeded with
/// that value.
pub proof fn lemma_gather_ok<T>(steps: Seq<Result<T, GenError>>)
    requires
        gather(steps) is Ok,
    ensures
        gather(steps)->Ok_0.len() == steps.len(),
        forall|i: int| 0 <= i < steps.len() ==> steps[i] == Ok::<T, GenError>(
            #[trigger] gather(steps)->Ok_0[i],
        ),
    decreases steps.len(),
{
    if steps.len() > 0 {
        lemma_gather_ok(steps.drop_last());
    }
}

/// Once a beginning of the steps has failed, the whole has failed with the
/// same error.
pub proof fn lemma_gather_stops<T>(steps: Seq<Result<T, GenError>>, n: int)
    requires
        0 <= n <= steps.len(),
        gather(steps.take(n)) is Err,
    ensures
        gather(steps) == gather(steps.take(n)),
    decreases steps.len() - n,
{
    if n == steps.len() {
        assert(steps.take(n) == steps);
    } else {
        lemma_gather_step(steps, n);
        lemma_gather_stops(steps, n + 1);
    }
}

} // verus!
