//! Scanning a liqee account for token conditional swaps worth executing.

use vstd::prelude::*;
use crate::prepare::Key;
use crate::schedule::TcsCandidate;

verus! {

/// What was found out about one active tcs of an account: whether it is
/// interesting (expired, or triggerable at a plausible price), and its
/// maximal volume (`None` when it should not be executed now). The volume
/// is read only for an interesting tcs, so a caller may leave any value
/// there for the others.
pub struct TcsCheck {
    pub tcs_id: u64,
    pub interesting: Result<bool, String>,
    pub max_volume: Result<Option<u64>, String>,
}

/// The report for one tcs: nothing for one that is not interesting or not
/// executable now, the candidate with its volume, or the first error met.
pub open spec fn scan_entry(pubkey: Key, c: TcsCheck) -> Option<Result<TcsCandidate, String>> {
    match c.interesting {
        Ok(true) => match c.max_volume {
            Ok(Some(v)) => Some(Ok(TcsCandidate { pubkey, tcs_id: c.tcs_id, volume: v })),
            Ok(None) => None,
            Err(e) => Some(Err(e)),
        },
        Ok(false) => None,
        Err(e) => Some(Err(e)),
    }
}

/// The reports of all checks, in order, skipping the empty ones.
pub open spec fn scan_spec(pubkey: Key, checks: Seq<TcsCheck>) -> Seq<Result<TcsCandidate, String>>
    decreases checks.len(),
{
    if checks.len() == 0 {
        Seq::empty()
    } else {
        let r = scan_spec(pubkey, checks.drop_last());
        match scan_entry(pubkey, checks.last()) {
            Some(x) => r.push(x),
            None => r,
        }
    }
}

fn scan_one(pubkey: Key, c: &TcsCheck) -> (r: Option<Result<TcsCandidate, String>>)
    ensures
        r == scan_entry(pubkey, *c),
{
    match &c.interesting {
        Ok(true) => match &c.max_volume {
            Ok(Some(v)) => Some(Ok(TcsCandidate { pubkey, tcs_id: c.tcs_id, volume: *v })),
            Ok(None) => None,
            Err(e) => Some(Err(e.clone())),
        },
        Ok(false) => None,
        Err(e) => Some(Err(e.clone())),
    }
}

/// The tcs of the account `pubkey` that are interesting and executable now,
/// with their maximal volumes, and the errors met while checking, in the
/// order of `checks`.
pub fn find_interesting_tcs_for_account(pubkey: Key, checks: &Vec<TcsCheck>) -> (r: Vec<Result<TcsCandidate, String>>)
    ensures
        r@ == scan_spec(pubkey, checks@),
        r@.len() <= checks@.len(),
        // a reported candidate is an interesting tcs of the account with its volume
        forall|k: int| 0 <= k < r@.len() && #[trigger] r@[k] is Ok ==> exists|i: int| {
            &&& 0 <= i < checks@.len()
            &&& checks@[i].interesting == Ok::<bool, String>(true)
            &&& #[trigger] checks@[i].max_volume == Ok::<Option<u64>, String>(Some(r@[k]->Ok_0.volume))
            &&& r@[k]->Ok_0.tcs_id == checks@[i].tcs_id
            &&& r@[k]->Ok_0.pubkey == pubkey
        },
        // a reported error is one met checking some tcs
        forall|k: int| 0 <= k < r@.len() && #[trigger] r@[k] is Err ==> exists|i: int| {
            &&& 0 <= i < checks@.len()
            &&& (#[trigger] checks@[i].interesting == Err::<bool, String>(r@[k]->Err_0)
                || (checks@[i].interesting == Ok::<bool, String>(true)
                    && checks@[i].max_volume == Err::<Option<u64>, String>(r@[k]->Err_0)))
        },
        // every interesting tcs with a volume is reported
        forall|i: int| 0 <= i < checks@.len() && #[trigger] checks@[i].interesting == Ok::<bool, String>(true)
            && checks@[i].max_volume is Ok && checks@[i].max_volume->Ok_0 is Some
            ==> r@.contains(Ok::<TcsCandidate, String>(TcsCandidate {
                pubkey,
                tcs_id: checks@[i].tcs_id,
                volume: checks@[i].max_volume->Ok_0->Some_0,
            })),
        // every failed interest check is reported
        forall|i: int| 0 <= i < checks@.len() && #[trigger] checks@[i].interesting is Err
            ==> r@.contains(Err::<TcsCandidate, String>(checks@[i].interesting->Err_0)),
{
    let mut r: Vec<Result<TcsCandidate, String>> = Vec::new();
    let n = checks.len();
    for i in 0..n
        invariant
            n == checks@.len(),
            r@ == scan_spec(pubkey, checks@.subrange(0, i as int)),
            r@.len() <= i,
            forall|k: int| 0 <= k < r@.len() && #[trigger] r@[k] is Ok ==> exists|j: int| {
                &&& 0 <= j < i
                &&& checks@[j].interesting == Ok::<bool, String>(true)
                &&& #[trigger] checks@[j].max_volume == Ok::<Option<u64>, String>(Some(r@[k]->Ok_0.volume))
                &&& r@[k]->Ok_0.tcs_id == checks@[j].tcs_id
                &&& r@[k]->Ok_0.pubkey == pubkey
            },
            forall|k: int| 0 <= k < r@.len() && #[trigger] r@[k] is Err ==> exists|j: int| {
                &&& 0 <= j < i
                &&& (#[trigger] checks@[j].interesting == Err::<bool, String>(r@[k]->Err_0)
                    || (checks@[j].interesting == Ok::<bool, String>(true)
                        && checks@[j].max_volume == Err::<Option<u64>, String>(r@[k]->Err_0)))
            },
            forall|j: int| 0 <= j < i && #[trigger] checks@[j].interesting == Ok::<bool, String>(true)
                && checks@[j].max_volume is Ok && checks@[j].max_volume->Ok_0 is Some
                ==> r@.contains(Ok::<TcsCandidate, String>(TcsCandidate {
                    pubkey,
                    tcs_id: checks@[j].tcs_id,
                    volume: checks@[j].max_volume->Ok_0->Some_0,
                })),
            forall|j: int| 0 <= j < i && #[trigger] checks@[j].interesting is Err
                ==> r@.contains(Err::<TcsCandidate, String>(checks@[j].interesting->Err_0)),
    {
        assert(checks@.subrange(0, i + 1).drop_last() =~= checks@.subrange(0, i as int));
        let ghost before = r@;
        match scan_one(pubkey, &checks[i]) {
            Some(x) => {
                r.push(x);
                proof {
                    assert(r@[before.len() as int] == x);
                    assert forall|j: int| 0 <= j < i + 1 && #[trigger] checks@[j].interesting == Ok::<bool, String>(true)
                        && checks@[j].max_volume is Ok && checks@[j].max_volume->Ok_0 is Some
                        implies r@.contains(Ok::<TcsCandidate, String>(TcsCandidate {
                            pubkey,
                            tcs_id: checks@[j].tcs_id,
                            volume: checks@[j].max_volume->Ok_0->Some_0,
                        })) by {
                        if j < i {
                            let c = Ok::<TcsCandidate, String>(TcsCandidate {
                                pubkey,
                                tcs_id: checks@[j].tcs_id,
                                volume: checks@[j].max_volume->Ok_0->Some_0,
                            });
                            let k = choose|k: int| 0 <= k < before.len() && before[k] == c;
                            assert(r@[k] == c);
                        }
                    }
                    assert forall|j: int| 0 <= j < i + 1 && #[trigger] checks@[j].interesting is Err
                        implies r@.contains(Err::<TcsCandidate, String>(checks@[j].interesting->Err_0)) by {
                        if j < i {
                            let c = Err::<TcsCandidate, String>(checks@[j].interesting->Err_0);
                            let k = choose|k: int| 0 <= k < before.len() && before[k] == c;
                            assert(r@[k] == c);
                        }
                    }
                    assert forall|k: int| 0 <= k < r@.len() && #[trigger] r@[k] is Ok implies exists|j: int| {
                        &&& 0 <= j < i + 1
                        &&& checks@[j].interesting == Ok::<bool, String>(true)
                        &&& #[trigger] checks@[j].max_volume == Ok::<Option<u64>, String>(Some(r@[k]->Ok_0.volume))
                        &&& r@[k]->Ok_0.tcs_id == checks@[j].tcs_id
                        &&& r@[k]->Ok_0.pubkey == pubkey
                    } by {
                        if k < before.len() {
                            assert(before[k] == r@[k]);
                        } else {
                            assert(checks@[i as int].max_volume == Ok::<Option<u64>, String>(Some(r@[k]->Ok_0.volume)));
                        }
                    }
                    assert forall|k: int| 0 <= k < r@.len() && #[trigger] r@[k] is Err implies exists|j: int| {
                        &&& 0 <= j < i + 1
                        &&& (#[trigger] checks@[j].interesting == Err::<bool, String>(r@[k]->Err_0)
                            || (checks@[j].interesting == Ok::<bool, String>(true)
                                && checks@[j].max_volume == Err::<Option<u64>, String>(r@[k]->Err_0)))
                    } by {
                        if k < before.len() {
                            assert(before[k] == r@[k]);
                        } else {
                            assert(checks@[i as int].interesting == Err::<bool, String>(r@[k]->Err_0)
                                || (checks@[i as int].interesting == Ok::<bool, String>(true)
                                    && checks@[i as int].max_volume == Err::<Option<u64>, String>(r@[k]->Err_0)));
                        }
                    }
                }
            },
            None => {},
        }
    }
    assert(checks@.subrange(0, n as int) =~= checks@);
    r
}

} // verus!
