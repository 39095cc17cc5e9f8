//! The batch executor: how many workers a batch gets, the classification of
//! every text on a pool of that size, and the ordered, all-or-nothing result.

use vstd::prelude::*;
use rayon::iter::{IntoParallelRefIterator, ParallelIterator};
use crate::classifier::classified;
use crate::detect::{detect, info_outcome, DetectError};
use crate::model::{Info, InfoView};

verus! {

/// `rayon::ThreadPoolBuildError`, the reason why a pool could not be built.
/// It is carried through unopened.
#[verifier::external_type_specification]
#[verifier::external_body]
pub struct ExThreadPoolBuildError(rayon::ThreadPoolBuildError);

/// The request that stands for "all the host has".
pub const DEFAULT_JOBS: i16 = -1;

/// The request of a caller who may have made none.
pub fn requested_jobs(hint: Option<i16>) -> (requested: i16)
    ensures
        requested == (match hint {
            Some(n) => n,
            None => DEFAULT_JOBS,
        }),
{
    match hint {
        Some(n) => n,
        None => DEFAULT_JOBS,
    }
}

/// The number of workers for a batch: what was asked for, where that is a
/// positive number below what the host has; else what the host has.
pub open spec fn resolved_workers(requested: int, available: int) -> int {
    if requested <= 0 {
        available
    } else if requested < available {
        requested
    } else {
        available
    }
}

/// The resolved number never exceeds what the host has; a request of -1
/// takes all of it; a positive request below it is granted as asked.
pub proof fn lemma_resolved_workers(requested: int, available: int)
    ensures
        resolved_workers(requested, available) <= available,
        resolved_workers(-1, available) == available,
        0 < requested < available ==> resolved_workers(requested, available) == requested,
        available >= 1 ==> resolved_workers(requested, available) >= 1,
{
}

/// Resolves the number of workers for a batch.
pub fn resolve_workers(requested: i16, available: usize) -> (workers: usize)
    ensures
        workers == resolved_workers(requested as int, available as int),
{
    if requested > 0 && (requested as usize) < available {
        requested as usize
    } else {
        available
    }
}

/// Calls `num_cpus::get`. Trusted: the crate documents that the number of
/// logical cores it reports is at least 1. The number itself depends on the
/// host and on the moment.
#[verifier::external_body]
fn available_workers() -> (available: usize)
    ensures
        available >= 1,
{
    num_cpus::get()
}

/// The outcomes of a batch by what they stand for.
pub open spec fn outcomes_view(outcomes: Seq<Result<Info, DetectError>>) -> Seq<
    Result<InfoView, DetectError>,
> {
    Seq::new(
        outcomes.len(),
        |i: int|
            match outcomes[i] {
                Ok(info) => Ok(info@),
                Err(e) => Err(e),
            },
    )
}

/// The result of a batch by what it stands for.
pub open spec fn batch_view(r: Result<Vec<Info>, DetectError>) -> Result<
    Seq<InfoView>,
    DetectError,
> {
    match r {
        Ok(infos) => Ok(Seq::new(infos@.len(), |i: int| infos@[i]@)),
        Err(e) => Err(e),
    }
}

/// The outcome of classifying each text of a batch by itself, in the order
/// of the texts.
pub open spec fn single_outcomes(texts: Seq<&str>) -> Seq<Result<InfoView, DetectError>> {
    Seq::new(texts.len(), |i: int| info_outcome(classified(texts[i]@)))
}

/// What a batch returns for the outcomes of its texts: all of them in the
/// same order where every text was classified, and nothing where one was
/// not.
pub open spec fn batch_outcome(outcomes: Seq<Result<InfoView, DetectError>>) -> Result<
    Seq<InfoView>,
    DetectError,
> {
    if forall|i: int| 0 <= i < outcomes.len() ==> (#[trigger] outcomes[i]) is Ok {
        Ok(Seq::new(outcomes.len(), |i: int| outcomes[i]->Ok_0))
    } else {
        Err(DetectError::BatchAborted)
    }
}

/// Builds a pool of `workers` threads with `rayon::ThreadPoolBuilder` and
/// maps `detect` over the texts on it, collected into a vector. Trusted:
/// where the pool can be built, the vector holds what `detect` returns for
/// each text, at the text's own index, whichever worker got there first.
/// The pool is gone when the call returns.
#[verifier::external_body]
fn detect_on_pool(texts: &Vec<&str>, workers: usize) -> (r: Result<
    Vec<Result<Info, DetectError>>,
    rayon::ThreadPoolBuildError,
>)
    requires
        workers >= 1,
    ensures
        r matches Ok(outcomes) ==> outcomes_view(outcomes@) == single_outcomes(texts@),
{
    let pool = rayon::ThreadPoolBuilder::new().num_threads(workers).build()?;
    Ok(pool.install(|| texts.par_iter().map(|text| detect(text)).collect()))
}

/// Turns the outcomes of a batch into its result: every `Info` in order, or
/// `BatchAborted` where one text has none.
pub fn collect_batch(outcomes: Vec<Result<Info, DetectError>>) -> (r: Result<
    Vec<Info>,
    DetectError,
>)
    ensures
        batch_view(r) == batch_outcome(outcomes_view(outcomes@)),
        r matches Ok(infos) ==> infos@.len() == outcomes@.len() && forall|i: int|
            0 <= i < infos@.len() ==> (#[trigger] outcomes@[i]) is Ok && outcomes@[i]->Ok_0@
                == infos@[i]@,
        r matches Err(e) ==> e == DetectError::BatchAborted && exists|i: int|
            0 <= i < outcomes@.len() && (#[trigger] outcomes@[i]) is Err,
{
    let mut infos: Vec<Info> = Vec::new();
    let mut i: usize = 0;
    while i < outcomes.len()
        invariant
            i <= outcomes.len(),
            infos@.len() == i,
            forall|k: int|
                0 <= k < i ==> (#[trigger] outcomes@[k]) is Ok && outcomes@[k]->Ok_0@
                    == infos@[k]@,
        decreases outcomes.len() - i,
    {
        match &outcomes[i] {
            Ok(info) => {
                infos.push(info.clone());
            },
            Err(_) => {
                assert(outcomes_view(outcomes@)[i as int] is Err);
                return Err(DetectError::BatchAborted);
            },
        }
        i += 1;
    }
    proof {
        let views = outcomes_view(outcomes@);
        assert forall|k: int| 0 <= k < views.len() implies (#[trigger] views[k]) is Ok by {
            assert(outcomes@[k] is Ok);
        }
        assert(Seq::new(infos@.len(), |k: int| infos@[k]@) =~= Seq::new(
            views.len(),
            |k: int| views[k]->Ok_0,
        )) by {
            assert forall|k: int| 0 <= k < views.len() implies infos@[k]@ == views[k]->Ok_0 by {
                assert(outcomes@[k] is Ok);
            }
        }
    }
    Ok(infos)
}

/// Classifies every text of a batch on a pool of its own, sized by
/// `resolve_workers` from `n_jobs` and the host's logical cores. The result
/// holds the `Info` of each text at the text's index. One text without a
/// result aborts the batch. Where the host cannot start the pool, the batch
/// ends with `PoolUnavailable` before any text is looked at.
pub fn batch_detect(texts: Vec<&str>, n_jobs: i16) -> (r: Result<Vec<Info>, DetectError>)
    ensures
        r == Err::<Vec<Info>, DetectError>(DetectError::PoolUnavailable) || batch_view(r)
            == batch_outcome(single_outcomes(texts@)),
        r matches Ok(infos) ==> infos@.len() == texts@.len() && forall|i: int|
            0 <= i < infos@.len() ==> info_outcome(classified(#[trigger] texts@[i]@)) == Ok::<
                InfoView,
                DetectError,
            >(infos@[i]@),
        r == Err::<Vec<Info>, DetectError>(DetectError::BatchAborted) ==> exists|i: int|
            0 <= i < texts@.len() && info_outcome(classified(#[trigger] texts@[i]@)) is Err,
        r is Err ==> r->Err_0 == DetectError::PoolUnavailable || r->Err_0
            == DetectError::BatchAborted,
{
    let available = available_workers();
    let workers = resolve_workers(n_jobs, available);
    match detect_on_pool(&texts, workers) {
        Ok(outcomes) => {
            let r = collect_batch(outcomes);
            proof {
                let singles = single_outcomes(texts@);
                assert(singles == outcomes_view(outcomes@));
                assert(singles.len() == outcomes@.len());
                assert forall|i: int| 0 <= i < outcomes@.len() implies (match outcomes@[i] {
                    Ok(info) => Ok::<InfoView, DetectError>(info@),
                    Err(e) => Err(e),
                }) == info_outcome(classified(texts@[i]@)) by {
                    assert(outcomes_view(outcomes@)[i] == singles[i]);
                }
            }
            r
        },
        Err(_) => Err(DetectError::PoolUnavailable),
    }
}

} // verus!
