//! What the dispatch engine guarantees for a whole request.
//!
//! A request is modelled by what its environment answers: `outcomes[i]` is
//! what candidate `i` answers when probed, and `failure` is the status the
//! claiming candidate's dispatch fails with, if it fails. The fallback never
//! fails. `request_actions` lists the actions the engine asks for, in order,
//! when each is answered that way. It is built from the functions that
//! `Handling` follows: `RouterService::handle` starts in `initial_stage`,
//! `Handling::on_event` moves by `stage_after`, and both ask for `action_of`
//! the stage they reach.
use vstd::prelude::*;

use crate::resolver::{all_miss, first_claim, RouteOutcome};
use crate::routing::{action_of, initial_stage, stage_after, Action, Event, Stage};
use crate::status::NOT_FOUND;

verus! {

/// What the environment answers to action `a`.
pub open spec fn answer(a: Action, outcomes: Seq<RouteOutcome>, failure: Option<u16>) -> Event {
    match a {
        Action::Probe(i) => Event::Probed(outcomes[i as int]),
        Action::Dispatch(_, _) => match failure {
            Some(e) => Event::DispatchFailed(e),
            None => Event::Dispatched,
        },
        _ => Event::Rendered,
    }
}

/// Bounds the actions still to come from a stage.
pub open spec fn stage_measure(n: nat, st: Stage) -> nat {
    match st {
        Stage::Probing(i) => if i < n {
            (n - i + 3) as nat
        } else {
            0
        },
        Stage::Dispatching(_, _) => 2,
        Stage::Recovering(_) => 1,
        Stage::Done => 0,
    }
}

/// The actions asked for from stage `st` on, up to and including `Respond`.
pub open spec fn actions_from(
    outcomes: Seq<RouteOutcome>,
    failure: Option<u16>,
    st: Stage,
) -> Seq<Action>
    decreases stage_measure(outcomes.len(), st),
{
    let n = outcomes.len();
    match st {
        Stage::Done => seq![Action::Respond],
        Stage::Probing(i) => if i < n <= usize::MAX {
            seq![Action::Probe(i)] + actions_from(
                outcomes,
                failure,
                stage_after(n, st, Event::Probed(outcomes[i as int])),
            )
        } else {
            seq![Action::Probe(i)]
        },
        _ => seq![action_of(st)] + actions_from(
            outcomes,
            failure,
            stage_after(n, st, answer(action_of(st), outcomes, failure)),
        ),
    }
}

/// The actions one request asks for, from its start to its response.
pub open spec fn request_actions(outcomes: Seq<RouteOutcome>, failure: Option<u16>) -> Seq<
    Action,
> {
    actions_from(outcomes, failure, initial_stage(outcomes.len()))
}

/// Probes of candidates `lo .. hi`, in order.
pub open spec fn probes(lo: int, hi: int) -> Seq<Action> {
    Seq::new((hi - lo) as nat, |j: int| Action::Probe((lo + j) as usize))
}

proof fn lemma_after_dispatch(outcomes: Seq<RouteOutcome>, failure: Option<u16>, k: usize, s: u16)
    ensures
        actions_from(outcomes, failure, Stage::Dispatching(k, s)) == match failure {
            Some(e) => seq![Action::Dispatch(k, s), Action::Fallback(e), Action::Respond],
            None => seq![Action::Dispatch(k, s), Action::Respond],
        },
{
    let n = outcomes.len();
    let st = Stage::Dispatching(k, s);
    let next = stage_after(n, st, answer(action_of(st), outcomes, failure));
    assert(actions_from(outcomes, failure, Stage::Done) == seq![Action::Respond]);
    assert(actions_from(outcomes, failure, st) == seq![Action::Dispatch(k, s)] + actions_from(
        outcomes,
        failure,
        next,
    ));
    match failure {
        Some(e) => {
            assert(next == Stage::Recovering(e));
            let last = stage_after(n, next, answer(action_of(next), outcomes, failure));
            assert(last == Stage::Done);
            assert(actions_from(outcomes, failure, next) == seq![Action::Fallback(e)] + actions_from(
                outcomes,
                failure,
                last,
            ));
            assert(actions_from(outcomes, failure, next) =~= seq![
                Action::Fallback(e),
                Action::Respond,
            ]);
            assert(actions_from(outcomes, failure, st) =~= seq![
                Action::Dispatch(k, s),
                Action::Fallback(e),
                Action::Respond,
            ]);
        },
        None => {
            assert(next == Stage::Done);
            assert(actions_from(outcomes, failure, st) =~= seq![
                Action::Dispatch(k, s),
                Action::Respond,
            ]);
        },
    }
}

proof fn lemma_run_to_claim(outcomes: Seq<RouteOutcome>, failure: Option<u16>, i: int, k: int)
    requires
        outcomes.len() <= usize::MAX,
        first_claim(outcomes, k),
        0 <= i <= k,
    ensures
        actions_from(outcomes, failure, Stage::Probing(i as usize)) == probes(i, k + 1)
            + actions_from(
            outcomes,
            failure,
            Stage::Dispatching(k as usize, outcomes[k].status()),
        ),
    decreases k - i,
{
    let n = outcomes.len();
    let st = Stage::Probing(i as usize);
    let next = stage_after(n, st, Event::Probed(outcomes[i]));
    let rest = actions_from(
        outcomes,
        failure,
        Stage::Dispatching(k as usize, outcomes[k].status()),
    );
    assert(actions_from(outcomes, failure, st) == seq![Action::Probe(i as usize)] + actions_from(
        outcomes,
        failure,
        next,
    ));
    if i == k {
        assert(next == Stage::Dispatching(k as usize, outcomes[k].status()));
        assert(probes(i, k + 1) =~= seq![Action::Probe(i as usize)]);
    } else {
        assert(outcomes[i].is_miss());
        assert(next == Stage::Probing((i + 1) as usize));
        lemma_run_to_claim(outcomes, failure, i + 1, k);
        assert(seq![Action::Probe(i as usize)] + (probes(i + 1, k + 1) + rest) =~= probes(i, k + 1)
            + rest);
    }
}

proof fn lemma_run_all_miss(outcomes: Seq<RouteOutcome>, failure: Option<u16>, i: int)
    requires
        outcomes.len() <= usize::MAX,
        all_miss(outcomes),
        0 <= i < outcomes.len(),
    ensures
        actions_from(outcomes, failure, Stage::Probing(i as usize)) == probes(i, outcomes.len() as int)
            + seq![Action::Fallback(NOT_FOUND), Action::Respond],
    decreases outcomes.len() - i,
{
    let n = outcomes.len();
    let st = Stage::Probing(i as usize);
    let next = stage_after(n, st, Event::Probed(outcomes[i]));
    let tail = seq![Action::Fallback(NOT_FOUND), Action::Respond];
    assert(outcomes[i].is_miss());
    assert(actions_from(outcomes, failure, st) == seq![Action::Probe(i as usize)] + actions_from(
        outcomes,
        failure,
        next,
    ));
    if i + 1 < n {
        assert(next == Stage::Probing((i + 1) as usize));
        lemma_run_all_miss(outcomes, failure, i + 1);
        assert(seq![Action::Probe(i as usize)] + (probes(i + 1, n as int) + tail) =~= probes(
            i,
            n as int,
        ) + tail);
    } else {
        assert(next == Stage::Recovering(NOT_FOUND));
        let done = stage_after(n, next, answer(action_of(next), outcomes, failure));
        assert(done == Stage::Done);
        assert(actions_from(outcomes, failure, done) == seq![Action::Respond]);
        assert(actions_from(outcomes, failure, next) == seq![Action::Fallback(NOT_FOUND)]
            + actions_from(outcomes, failure, done));
        assert(actions_from(outcomes, failure, next) =~= tail);
        assert(seq![Action::Probe(i as usize)] + tail =~= probes(i, n as int) + tail);
    }
}

/// When candidate `k` is the first whose answer is not a miss, the engine
/// probes candidates `0..=k` in order and then has candidate `k` dispatch
/// with the status it answered; no candidate after `k` is ever probed.
pub proof fn law_first_claim_dispatches(
    outcomes: Seq<RouteOutcome>,
    k: int,
    failure: Option<u16>,
)
    requires
        outcomes.len() <= usize::MAX,
        first_claim(outcomes, k),
    ensures
        request_actions(outcomes, failure).subrange(0, k + 2) == probes(0, k + 1).push(
            Action::Dispatch(k as usize, outcomes[k].status()),
        ),
        failure is None ==> request_actions(outcomes, failure) == probes(0, k + 1) + seq![
            Action::Dispatch(k as usize, outcomes[k].status()),
            Action::Respond,
        ],
        forall|j: int|
            0 <= j < request_actions(outcomes, failure).len() ==> (#[trigger] request_actions(
                outcomes,
                failure,
            )[j] matches Action::Probe(c) ==> c <= k),
{
    let s = outcomes[k].status();
    assert(initial_stage(outcomes.len()) == Stage::Probing(0));
    lemma_run_to_claim(outcomes, failure, 0, k);
    lemma_after_dispatch(outcomes, failure, k as usize, s);
    let t = request_actions(outcomes, failure);
    assert(t.subrange(0, k + 2) =~= probes(0, k + 1).push(Action::Dispatch(k as usize, s)));
    if failure is None {
        assert(t =~= probes(0, k + 1) + seq![Action::Dispatch(k as usize, s), Action::Respond]);
    }
}

/// With no candidates, the engine goes straight to the fallback with
/// "not found".
pub proof fn law_empty_list_falls_back(failure: Option<u16>)
    ensures
        request_actions(Seq::<RouteOutcome>::empty(), failure) == seq![
            Action::Fallback(NOT_FOUND),
            Action::Respond,
        ],
{
    let outcomes = Seq::<RouteOutcome>::empty();
    let st = initial_stage(0);
    assert(st == Stage::Recovering(NOT_FOUND));
    let done = stage_after(0, st, answer(action_of(st), outcomes, failure));
    assert(done == Stage::Done);
    assert(actions_from(outcomes, failure, done) == seq![Action::Respond]);
    assert(request_actions(outcomes, failure) == seq![Action::Fallback(NOT_FOUND)] + actions_from(
        outcomes,
        failure,
        done,
    ));
    assert(request_actions(outcomes, failure) =~= seq![
        Action::Fallback(NOT_FOUND),
        Action::Respond,
    ]);
}

/// When every candidate misses, each is probed exactly once, in list order,
/// and then the fallback renders "not found".
pub proof fn law_all_miss_falls_back(outcomes: Seq<RouteOutcome>, failure: Option<u16>)
    requires
        outcomes.len() <= usize::MAX,
        all_miss(outcomes),
    ensures
        request_actions(outcomes, failure) == probes(0, outcomes.len() as int) + seq![
            Action::Fallback(NOT_FOUND),
            Action::Respond,
        ],
{
    if outcomes.len() == 0 {
        law_empty_list_falls_back(failure);
        assert(outcomes =~= Seq::<RouteOutcome>::empty());
        assert(probes(0, 0) + seq![Action::Fallback(NOT_FOUND), Action::Respond] =~= seq![
            Action::Fallback(NOT_FOUND),
            Action::Respond,
        ]);
    } else {
        assert(initial_stage(outcomes.len()) == Stage::Probing(0));
        lemma_run_all_miss(outcomes, failure, 0);
    }
}

/// When the claiming candidate's dispatch fails, the fallback renders that
/// failure exactly once, right after the failed dispatch, and the request is
/// then answered.
pub proof fn law_dispatch_failure_recovers(outcomes: Seq<RouteOutcome>, k: int, e: u16)
    requires
        outcomes.len() <= usize::MAX,
        first_claim(outcomes, k),
    ensures
        request_actions(outcomes, Some(e)) == probes(0, k + 1) + seq![
            Action::Dispatch(k as usize, outcomes[k].status()),
            Action::Fallback(e),
            Action::Respond,
        ],
{
    assert(initial_stage(outcomes.len()) == Stage::Probing(0));
    lemma_run_to_claim(outcomes, Some(e), 0, k);
    lemma_after_dispatch(outcomes, Some(e), k as usize, outcomes[k].status());
}

proof fn lemma_claim_or_all_miss(outcomes: Seq<RouteOutcome>, i: int)
    requires
        0 <= i <= outcomes.len(),
        forall|j: int| 0 <= j < i ==> (#[trigger] outcomes[j]).is_miss(),
    ensures
        all_miss(outcomes) || exists|k: int| first_claim(outcomes, k),
    decreases outcomes.len() - i,
{
    if i < outcomes.len() {
        if outcomes[i].is_miss() {
            lemma_claim_or_all_miss(outcomes, i + 1);
        } else {
            assert(first_claim(outcomes, i));
        }
    }
}

/// A request asks for at most `n + 3` actions over `n` candidates: the
/// probes come first, one per candidate at most, and the candidate each
/// probe names is strictly greater than the one before.
pub proof fn law_request_bounded(outcomes: Seq<RouteOutcome>, failure: Option<u16>)
    requires
        outcomes.len() <= usize::MAX,
    ensures
        request_actions(outcomes, failure).len() <= outcomes.len() + 3,
        forall|a: int, b: int|
            0 <= a < b < request_actions(outcomes, failure).len() && (#[trigger] request_actions(
                outcomes,
                failure,
            )[a]) is Probe && (#[trigger] request_actions(outcomes, failure)[b]) is Probe
                ==> request_actions(outcomes, failure)[a]->Probe_0 < request_actions(
                outcomes,
                failure,
            )[b]->Probe_0,
{
    let t = request_actions(outcomes, failure);
    lemma_claim_or_all_miss(outcomes, 0);
    let m: int;
    if exists|k: int| first_claim(outcomes, k) {
        let k = choose|k: int| first_claim(outcomes, k);
        assert(initial_stage(outcomes.len()) == Stage::Probing(0));
        lemma_run_to_claim(outcomes, failure, 0, k);
        lemma_after_dispatch(outcomes, failure, k as usize, outcomes[k].status());
        m = k + 1;
    } else {
        law_all_miss_falls_back(outcomes, failure);
        m = outcomes.len() as int;
    }
    assert(forall|j: int| 0 <= j < m ==> t[j] == Action::Probe(j as usize));
    assert(forall|j: int| m <= j < t.len() ==> !(t[j] is Probe));
}

} // verus!
