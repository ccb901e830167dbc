//! After the preparation phase: which tokens the liqor allows in the
//! health accounts of the triggers, and which prepared jobs only touch
//! allowed tokens.

use vstd::prelude::*;
use crate::prepare::{PreparedJob, TokenIndex};

verus! {

/// The token indexes of all jobs, job after job.
pub open spec fn all_tokens(jobs: Seq<PreparedJob>) -> Seq<TokenIndex>
    decreases jobs.len(),
{
    if jobs.len() == 0 {
        Seq::empty()
    } else {
        all_tokens(jobs.drop_last()) + jobs.last().token_indexes@
    }
}

/// The first occurrence of each element, in order.
pub open spec fn dedup(s: Seq<TokenIndex>) -> Seq<TokenIndex>
    decreases s.len(),
{
    if s.len() == 0 {
        Seq::empty()
    } else {
        let r = dedup(s.drop_last());
        if r.contains(s.last()) { r } else { r.push(s.last()) }
    }
}

/// `dedup` holds each element of its argument exactly once.
pub proof fn lemma_dedup(s: Seq<TokenIndex>)
    ensures
        dedup(s).no_duplicates(),
        forall|x: TokenIndex| dedup(s).contains(x) <==> s.contains(x),
    decreases s.len(),
{
    if s.len() > 0 {
        let p = s.drop_last();
        lemma_dedup(p);
        assert forall|x: TokenIndex| s.contains(x) <==> (p.contains(x) || x == s.last()) by {
            if s.contains(x) {
                let k = choose|k: int| 0 <= k < s.len() && s[k] == x;
                if k < s.len() - 1 {
                    assert(p[k] == x);
                }
            }
            if p.contains(x) {
                let k = choose|k: int| 0 <= k < p.len() && p[k] == x;
                assert(s[k] == x);
            }
            if x == s.last() {
                assert(s[s.len() - 1] == x);
            }
        }
        let r = dedup(p);
        if !r.contains(s.last()) {
            assert forall|x: TokenIndex| r.push(s.last()).contains(x) <==> (r.contains(x) || x == s.last()) by {
                if r.push(s.last()).contains(x) {
                    let k = choose|k: int| 0 <= k < r.len() + 1 && r.push(s.last())[k] == x;
                    if k < r.len() {
                        assert(r[k] == x);
                    }
                }
                if r.contains(x) {
                    let k = choose|k: int| 0 <= k < r.len() && r[k] == x;
                    assert(r.push(s.last())[k] == x);
                }
                if x == s.last() {
                    assert(r.push(s.last())[r.len() as int] == x);
                }
            }
            assert forall|i: int, j: int| 0 <= i < r.len() + 1 && 0 <= j < r.len() + 1 && i != j
                implies r.push(s.last())[i] != r.push(s.last())[j] by {
                if i == r.len() {
                    assert(r[j] != s.last());
                } else if j == r.len() {
                    assert(r[i] != s.last());
                }
            }
        }
    }
}

/// `x` first occurs in `s` at position `i`.
pub open spec fn first_at(s: Seq<TokenIndex>, x: TokenIndex, i: int) -> bool {
    0 <= i < s.len() && s[i] == x && forall|j: int| 0 <= j < i ==> s[j] != x
}

proof fn lemma_first_at_in_prefix(p: Seq<TokenIndex>, x: TokenIndex, y: TokenIndex, i: int)
    requires
        p.contains(y),
        first_at(p.push(x), y, i),
    ensures
        first_at(p, y, i),
{
    let j = choose|j: int| 0 <= j < p.len() && p[j] == y;
    assert(p.push(x)[j] == y);
    assert forall|m: int| 0 <= m < i implies p[m] != y by {
        assert(p.push(x)[m] == p[m]);
    }
}

/// `dedup` keeps the order of first occurrences.
pub proof fn lemma_dedup_order(s: Seq<TokenIndex>)
    ensures
        forall|k: int, l: int, i1: int, i2: int|
            #![trigger first_at(s, dedup(s)[k], i1), first_at(s, dedup(s)[l], i2)]
            0 <= k < l < dedup(s).len() && first_at(s, dedup(s)[k], i1) && first_at(s, dedup(s)[l], i2) ==> i1 < i2,
    decreases s.len(),
{
    if s.len() > 0 {
        let p = s.drop_last();
        let x = s.last();
        assert(s =~= p.push(x));
        lemma_dedup_order(p);
        lemma_dedup(p);
        let d = dedup(p);
        assert forall|k: int, l: int, i1: int, i2: int|
            #![trigger first_at(s, dedup(s)[k], i1), first_at(s, dedup(s)[l], i2)]
            0 <= k < l < dedup(s).len() && first_at(s, dedup(s)[k], i1) && first_at(s, dedup(s)[l], i2) implies i1 < i2 by {
            assert(d.contains(d[k]));
            assert(p.contains(dedup(s)[k]));
            lemma_first_at_in_prefix(p, x, dedup(s)[k], i1);
            if l < d.len() {
                assert(d.contains(d[l]));
                lemma_first_at_in_prefix(p, x, dedup(s)[l], i2);
                assert(dedup(s)[k] == d[k] && dedup(s)[l] == d[l]);
            } else {
                assert(dedup(s)[l] == x);
                assert(!p.contains(x));
                if i2 < p.len() {
                    assert(p[i2] == x);
                }
            }
        }
    }
}

fn contains_token(v: &Vec<TokenIndex>, x: TokenIndex) -> (r: bool)
    ensures
        r == v@.contains(x),
{
    let n = v.len();
    for k in 0..n
        invariant
            n == v@.len(),
            forall|j: int| 0 <= j < k ==> v@[j] != x,
    {
        if v[k] == x {
            assert(v@[k as int] == x);
            return true;
        }
    }
    false
}

/// The tokens that the prepared jobs touch, each once, in the order in
/// which they first appear.
pub fn token_candidates(jobs: &Vec<PreparedJob>) -> (r: Vec<TokenIndex>)
    ensures
        r@ == dedup(all_tokens(jobs@)),
        r@.no_duplicates(),
        forall|x: TokenIndex| r@.contains(x) <==> all_tokens(jobs@).contains(x),
        // in the order in which the tokens first appear
        forall|k: int, l: int, i1: int, i2: int|
            #![trigger first_at(all_tokens(jobs@), r@[k], i1), first_at(all_tokens(jobs@), r@[l], i2)]
            0 <= k < l < r@.len() && first_at(all_tokens(jobs@), r@[k], i1) && first_at(all_tokens(jobs@), r@[l], i2)
            ==> i1 < i2,
{
    let mut flat: Vec<TokenIndex> = Vec::new();
    let n = jobs.len();
    for i in 0..n
        invariant
            n == jobs@.len(),
            flat@ == all_tokens(jobs@.subrange(0, i as int)),
    {
        let tokens = &jobs[i].token_indexes;
        let m = tokens.len();
        let ghost before = flat@;
        for k in 0..m
            invariant
                m == tokens@.len(),
                flat@ == before + tokens@.subrange(0, k as int),
        {
            flat.push(tokens[k]);
            assert(before + tokens@.subrange(0, k + 1) =~= (before + tokens@.subrange(0, k as int)).push(tokens@[k as int]));
        }
        assert(jobs@.subrange(0, i + 1).drop_last() =~= jobs@.subrange(0, i as int));
        assert(tokens@.subrange(0, m as int) =~= tokens@);
    }
    assert(jobs@.subrange(0, n as int) =~= jobs@);

    let mut r: Vec<TokenIndex> = Vec::new();
    let len = flat.len();
    for k in 0..len
        invariant
            len == flat@.len(),
            r@ == dedup(flat@.subrange(0, k as int)),
    {
        let x = flat[k];
        assert(flat@.subrange(0, k + 1).drop_last() =~= flat@.subrange(0, k as int));
        if !contains_token(&r, x) {
            r.push(x);
        }
    }
    assert(flat@.subrange(0, len as int) =~= flat@);
    proof {
        lemma_dedup(flat@);
        lemma_dedup_order(flat@);
    }
    r
}

/// The candidates whose flag is set, in order.
pub open spec fn kept(candidates: Seq<TokenIndex>, ok: Seq<bool>) -> Seq<TokenIndex>
    decreases candidates.len(),
{
    if candidates.len() == 0 {
        Seq::empty()
    } else {
        let r = kept(candidates.drop_last(), ok);
        if ok[candidates.len() - 1] { r.push(candidates.last()) } else { r }
    }
}

/// The allowed tokens: the candidates for which the liqor could make sure
/// to hold a token position (`position_ok`, one flag per candidate).
pub fn allowed_tokens(candidates: &Vec<TokenIndex>, position_ok: &Vec<bool>) -> (r: Vec<TokenIndex>)
    requires
        candidates@.len() == position_ok@.len(),
    ensures
        r@ == kept(candidates@, position_ok@),
        forall|x: TokenIndex| r@.contains(x) <==> exists|i: int|
            0 <= i < candidates@.len() && position_ok@[i] && #[trigger] candidates@[i] == x,
        // in the candidates' order
        candidates@.no_duplicates() ==> forall|k: int, l: int, i1: int, i2: int|
            #![trigger first_at(candidates@, r@[k], i1), first_at(candidates@, r@[l], i2)]
            0 <= k < l < r@.len() && first_at(candidates@, r@[k], i1) && first_at(candidates@, r@[l], i2)
            ==> i1 < i2,
{
    let mut r: Vec<TokenIndex> = Vec::new();
    let n = candidates.len();
    for i in 0..n
        invariant
            n == candidates@.len(),
            n == position_ok@.len(),
            r@ == kept(candidates@.subrange(0, i as int), position_ok@),
    {
        assert(candidates@.subrange(0, i + 1).drop_last() =~= candidates@.subrange(0, i as int));
        if position_ok[i] {
            r.push(candidates[i]);
        }
    }
    assert(candidates@.subrange(0, n as int) =~= candidates@);
    proof {
        lemma_kept(candidates@, position_ok@);
        if candidates@.no_duplicates() {
            lemma_kept_order(candidates@, position_ok@);
        }
    }
    r
}

/// `kept` keeps the order of the candidates.
pub proof fn lemma_kept_order(c: Seq<TokenIndex>, ok: Seq<bool>)
    requires
        c.len() <= ok.len(),
        c.no_duplicates(),
    ensures
        forall|k: int, l: int, i1: int, i2: int|
            #![trigger first_at(c, kept(c, ok)[k], i1), first_at(c, kept(c, ok)[l], i2)]
            0 <= k < l < kept(c, ok).len() && first_at(c, kept(c, ok)[k], i1) && first_at(c, kept(c, ok)[l], i2)
            ==> i1 < i2,
    decreases c.len(),
{
    if c.len() > 0 {
        let p = c.drop_last();
        let x = c.last();
        assert(c =~= p.push(x));
        assert(p.no_duplicates());
        lemma_kept_order(p, ok);
        lemma_kept(p, ok);
        let d = kept(p, ok);
        assert forall|k: int, l: int, i1: int, i2: int|
            #![trigger first_at(c, kept(c, ok)[k], i1), first_at(c, kept(c, ok)[l], i2)]
            0 <= k < l < kept(c, ok).len() && first_at(c, kept(c, ok)[k], i1) && first_at(c, kept(c, ok)[l], i2)
            implies i1 < i2 by {
            assert(kept(c, ok)[k] == d[k]);
            assert(d.contains(d[k]));
            let j1 = choose|j: int| 0 <= j < p.len() && ok[j] && #[trigger] p[j] == d[k];
            assert(p.contains(d[k]));
            lemma_first_at_in_prefix(p, x, d[k], i1);
            if l < d.len() {
                assert(kept(c, ok)[l] == d[l]);
                assert(d.contains(d[l]));
                let j2 = choose|j: int| 0 <= j < p.len() && ok[j] && #[trigger] p[j] == d[l];
                assert(p.contains(d[l]));
                lemma_first_at_in_prefix(p, x, d[l], i2);
            } else {
                assert(kept(c, ok)[l] == x);
                if i2 < p.len() {
                    assert(c[i2] == x && c[c.len() - 1] == x);
                }
            }
        }
    }
}

proof fn lemma_kept(c: Seq<TokenIndex>, ok: Seq<bool>)
    requires
        c.len() <= ok.len(),
    ensures
        forall|x: TokenIndex| kept(c, ok).contains(x) <==> exists|i: int|
            0 <= i < c.len() && ok[i] && #[trigger] c[i] == x,
    decreases c.len(),
{
    if c.len() > 0 {
        let p = c.drop_last();
        lemma_kept(p, ok);
        let r = kept(p, ok);
        assert forall|x: TokenIndex| kept(c, ok).contains(x) <==> exists|i: int|
            0 <= i < c.len() && ok[i] && #[trigger] c[i] == x by {
            if kept(c, ok).contains(x) {
                let k = choose|k: int| 0 <= k < kept(c, ok).len() && kept(c, ok)[k] == x;
                if ok[c.len() - 1] && k == r.len() {
                    assert(c[c.len() - 1] == x);
                } else {
                    assert(r[k] == x);
                    assert(r.contains(x));
                    let i = choose|i: int| 0 <= i < p.len() && ok[i] && #[trigger] p[i] == x;
                    assert(c[i] == x);
                }
            }
            if exists|i: int| 0 <= i < c.len() && ok[i] && #[trigger] c[i] == x {
                let i = choose|i: int| 0 <= i < c.len() && ok[i] && #[trigger] c[i] == x;
                if i == c.len() - 1 {
                    assert(kept(c, ok)[r.len() as int] == x);
                } else {
                    assert(p[i] == x);
                    assert(r.contains(x));
                    let k = choose|k: int| 0 <= k < r.len() && r[k] == x;
                    assert(kept(c, ok)[k] == x);
                }
            }
        }
    }
}

/// Every token of the job is allowed.
pub open spec fn uses_only(job: PreparedJob, allowed: Seq<TokenIndex>) -> bool {
    forall|t: int| 0 <= t < job.token_indexes@.len() ==> allowed.contains(#[trigger] job.token_indexes@[t])
}

/// A job uses only allowed tokens exactly when each of its tokens, from the
/// first to the last, is allowed.
pub proof fn lemma_uses_only_every_token(job: PreparedJob, allowed: Seq<TokenIndex>)
    ensures
        uses_only(job, allowed) ==> forall|t: int| 0 <= t < job.token_indexes@.len()
            ==> allowed.contains(#[trigger] job.token_indexes@[t]),
        (exists|t: int| 0 <= t < job.token_indexes@.len() && !allowed.contains(#[trigger] job.token_indexes@[t]))
            ==> !uses_only(job, allowed),
        job.token_indexes@.len() > 0 && !allowed.contains(job.token_indexes@[0]) ==> !uses_only(job, allowed),
{
}

fn job_uses_only(job: &PreparedJob, allowed: &Vec<TokenIndex>) -> (r: bool)
    ensures
        r == uses_only(*job, allowed@),
        r == forall|t: int| 0 <= t < job.token_indexes@.len() ==> allowed@.contains(#[trigger] job.token_indexes@[t]),
{
    let n = job.token_indexes.len();
    for k in 0..n
        invariant
            n == job.token_indexes@.len(),
            forall|t: int| 0 <= t < k ==> allowed@.contains(#[trigger] job.token_indexes@[t]),
    {
        if !contains_token(allowed, job.token_indexes[k]) {
            return false;
        }
    }
    true
}

/// The indexes, in increasing order, of the prepared jobs whose tokens are
/// all allowed: those are executed, the others are dropped.
pub fn executable_jobs(jobs: &Vec<PreparedJob>, allowed: &Vec<TokenIndex>) -> (r: Vec<usize>)
    ensures
        forall|k: int| 0 <= k < r@.len() ==> #[trigger] r@[k] < jobs@.len() && uses_only(jobs@[r@[k] as int], allowed@),
        forall|k: int, l: int| 0 <= k < l < r@.len() ==> r@[k] < r@[l],
        forall|i: int| 0 <= i < jobs@.len() && uses_only(#[trigger] jobs@[i], allowed@) ==> r@.contains(i as usize),
        // every token of an executed job is allowed, the first one included
        forall|k: int, t: int| 0 <= k < r@.len() && 0 <= t < jobs@[r@[k] as int].token_indexes@.len()
            ==> allowed@.contains(#[trigger] jobs@[r@[k] as int].token_indexes@[t]),
        // a job with a token that is not allowed is not executed
        forall|i: int, t: int| 0 <= i < jobs@.len() && 0 <= t < jobs@[i].token_indexes@.len()
            && !allowed@.contains(#[trigger] jobs@[i].token_indexes@[t]) ==> !r@.contains(i as usize),
        // a job that is not executed has a token that is not allowed
        forall|i: int| #![trigger r@.contains(i as usize)] 0 <= i < jobs@.len() && !r@.contains(i as usize) ==> exists|t: int|
            0 <= t < jobs@[i].token_indexes@.len() && !allowed@.contains(#[trigger] jobs@[i].token_indexes@[t]),
{
    let mut r: Vec<usize> = Vec::new();
    let n = jobs.len();
    for i in 0..n
        invariant
            n == jobs@.len(),
            forall|k: int| 0 <= k < r@.len() ==> #[trigger] r@[k] < i && uses_only(jobs@[r@[k] as int], allowed@),
            forall|k: int, l: int| 0 <= k < l < r@.len() ==> r@[k] < r@[l],
            forall|j: int| 0 <= j < i && uses_only(#[trigger] jobs@[j], allowed@) ==> r@.contains(j as usize),
    {
        if job_uses_only(&jobs[i], allowed) {
            let ghost before = r@;
            r.push(i);
            assert forall|j: int| 0 <= j < i + 1 && uses_only(#[trigger] jobs@[j], allowed@) implies r@.contains(j as usize) by {
                if j == i {
                    assert(r@[before.len() as int] == i);
                } else {
                    let k = choose|k: int| 0 <= k < before.len() && before[k] == j as usize;
                    assert(r@[k] == j as usize);
                }
            }
        } else {
            assert forall|j: int| 0 <= j < i + 1 && uses_only(#[trigger] jobs@[j], allowed@) implies r@.contains(j as usize) by {
                if j == i {
                    assert(!uses_only(jobs@[i as int], allowed@));
                }
            }
        }
    }
    proof {
        assert forall|k: int, t: int| 0 <= k < r@.len() && 0 <= t < jobs@[r@[k] as int].token_indexes@.len()
            implies allowed@.contains(#[trigger] jobs@[r@[k] as int].token_indexes@[t]) by {
            assert(uses_only(jobs@[r@[k] as int], allowed@));
        }
        assert forall|i: int, t: int| 0 <= i < jobs@.len() && 0 <= t < jobs@[i].token_indexes@.len()
            && !allowed@.contains(#[trigger] jobs@[i].token_indexes@[t]) implies !r@.contains(i as usize) by {
            if r@.contains(i as usize) {
                let k = choose|k: int| 0 <= k < r@.len() && r@[k] == i as usize;
                assert(uses_only(jobs@[r@[k] as int], allowed@));
            }
        }
        assert forall|i: int| #![trigger r@.contains(i as usize)] 0 <= i < jobs@.len() && !r@.contains(i as usize) implies exists|t: int|
            0 <= t < jobs@[i].token_indexes@.len() && !allowed@.contains(#[trigger] jobs@[i].token_indexes@[t]) by {
            assert(!uses_only(jobs@[i], allowed@));
        }
    }
    r
}

} // verus!
