//! The route resolver: a per-request cursor that walks the candidate list in
//! order until one candidate claims the request or the list runs out.
use std::rc::Rc;
use vstd::prelude::*;

use crate::shared::share;
use crate::status::NOT_FOUND;

verus! {

/// What a candidate answers when it is probed with a request.
#[derive(Clone, Copy, Debug, PartialEq, Eq, Structural)]
pub enum RouteOutcome {
    /// The candidate claims the request and will dispatch it with this status.
    Matched(u16),
    /// The candidate declines. With "not found" the next candidate is tried;
    /// any other status stops the search at this candidate.
    Rejected(u16),
}

impl RouteOutcome {
    pub open spec fn spec_status(&self) -> u16 {
        match *self {
            RouteOutcome::Matched(s) => s,
            RouteOutcome::Rejected(s) => s,
        }
    }

    /// A miss: the candidate declines with "not found", so the search goes on.
    pub open spec fn spec_is_miss(&self) -> bool {
        *self == RouteOutcome::Rejected(NOT_FOUND)
    }

    /// The status code the outcome carries.
    #[verifier::when_used_as_spec(spec_status)]
    pub fn status(&self) -> (r: u16)
        ensures
            r == self.spec_status(),
    {
        match *self {
            RouteOutcome::Matched(s) => s,
            RouteOutcome::Rejected(s) => s,
        }
    }

    /// Whether the outcome passes the request on to the next candidate.
    #[verifier::when_used_as_spec(spec_is_miss)]
    pub fn is_miss(&self) -> (r: bool)
        ensures
            r == self.spec_is_miss(),
    {
        match *self {
            RouteOutcome::Matched(_) => false,
            RouteOutcome::Rejected(s) => s == NOT_FOUND,
        }
    }
}

/// Where a resolution stands.
#[derive(Clone, Copy, Debug, PartialEq, Eq, Structural)]
pub enum Resolution {
    /// Candidate `i` is to be probed next.
    Seeking(usize),
    /// Candidate `i` stopped the search with this status; it dispatches.
    Found(usize, u16),
    /// Every candidate missed, or there was none.
    Exhausted,
}

impl Resolution {
    pub open spec fn is_terminal(self) -> bool {
        !(self is Seeking)
    }

    /// The index of the candidate the cursor stands on, if any.
    pub open spec fn cursor(self) -> Option<usize> {
        match self {
            Resolution::Seeking(i) => Some(i),
            Resolution::Found(i, _) => Some(i),
            Resolution::Exhausted => None,
        }
    }
}

/// The state a resolution over `n` candidates starts in.
pub open spec fn initial_resolution(n: nat) -> Resolution {
    if n == 0 {
        Resolution::Exhausted
    } else {
        Resolution::Seeking(0)
    }
}

/// The state after the cursor moves past the candidate it stands on: onto
/// the next candidate while one remains, else exhausted.
pub open spec fn advanced(n: nat, r: Resolution) -> Resolution {
    match r.cursor() {
        Some(i) => if i + 1 < n {
            Resolution::Seeking((i + 1) as usize)
        } else {
            Resolution::Exhausted
        },
        None => Resolution::Exhausted,
    }
}

/// The state after recording that the candidate under the cursor answered
/// `o`: anything but a miss ends the search there; a miss leaves the cursor
/// where it is.
pub open spec fn routed(r: Resolution, o: RouteOutcome) -> Resolution {
    match r {
        Resolution::Seeking(i) => if o.is_miss() {
            r
        } else {
            Resolution::Found(i, o.status())
        },
        _ => r,
    }
}

/// One step of a resolution: record what the candidate under the cursor
/// answered, then move past it after a miss.
pub open spec fn resolution_after(n: nat, r: Resolution, o: RouteOutcome) -> Resolution {
    if r is Seeking && o.is_miss() {
        advanced(n, routed(r, o))
    } else {
        routed(r, o)
    }
}

/// `k` is the first candidate whose answer is not a miss.
pub open spec fn first_claim(outcomes: Seq<RouteOutcome>, k: int) -> bool {
    &&& 0 <= k < outcomes.len()
    &&& !outcomes[k].is_miss()
    &&& forall|j: int| 0 <= j < k ==> (#[trigger] outcomes[j]).is_miss()
}

/// Every candidate answers with a miss.
pub open spec fn all_miss(outcomes: Seq<RouteOutcome>) -> bool {
    forall|j: int| 0 <= j < outcomes.len() ==> (#[trigger] outcomes[j]).is_miss()
}

/// Where a resolution over candidates answering `outcomes` ends: at the first
/// claim, with its status, or exhausted when there is none.
pub open spec fn resolved(outcomes: Seq<RouteOutcome>) -> Resolution {
    if exists|k: int| first_claim(outcomes, k) {
        let k = choose|k: int| first_claim(outcomes, k);
        Resolution::Found(k as usize, outcomes[k].status())
    } else {
        Resolution::Exhausted
    }
}

/// `steps` transitions from `r`, candidate `i` answering `outcomes[i]`.
pub open spec fn resolution_steps(
    outcomes: Seq<RouteOutcome>,
    r: Resolution,
    steps: nat,
) -> Resolution
    decreases steps,
{
    if steps == 0 {
        r
    } else {
        match r {
            Resolution::Seeking(i) => resolution_steps(
                outcomes,
                resolution_after(outcomes.len(), r, outcomes[i as int]),
                (steps - 1) as nat,
            ),
            _ => r,
        }
    }
}

/// A miss moves the cursor exactly one candidate on; any other answer ends
/// the search. The cursor never goes back.
pub proof fn law_cursor_increases(n: nat, i: usize, o: RouteOutcome)
    requires
        i < n <= usize::MAX,
    ensures
        resolution_after(n, Resolution::Seeking(i), o).is_terminal()
            || resolution_after(n, Resolution::Seeking(i), o) == Resolution::Seeking(
            (i + 1) as usize,
        ),
        resolution_after(n, Resolution::Seeking(i), o) matches Resolution::Seeking(j) ==> j > i,
{
}

proof fn lemma_steps_from(outcomes: Seq<RouteOutcome>, i: int)
    requires
        0 <= i < outcomes.len() <= usize::MAX,
        forall|j: int| 0 <= j < i ==> (#[trigger] outcomes[j]).is_miss(),
    ensures
        resolution_steps(outcomes, Resolution::Seeking(i as usize), (outcomes.len() - i) as nat)
            == resolved(outcomes),
    decreases outcomes.len() - i,
{
    let n = outcomes.len();
    let steps = (n - i) as nat;
    let next = resolution_after(n, Resolution::Seeking(i as usize), outcomes[i]);
    assert(resolution_steps(outcomes, Resolution::Seeking(i as usize), steps) == resolution_steps(
        outcomes,
        next,
        (steps - 1) as nat,
    ));
    if outcomes[i].is_miss() {
        if i + 1 < n {
            lemma_steps_from(outcomes, i + 1);
        } else {
            assert(all_miss(outcomes));
            assert(!exists|k: int| first_claim(outcomes, k));
            assert(resolution_steps(outcomes, next, (steps - 1) as nat) == next);
        }
    } else {
        assert(first_claim(outcomes, i));
        let k = choose|k: int| first_claim(outcomes, k);
        assert(k == i) by {
            if k < i {
                assert(outcomes[k].is_miss());
            } else if k > i {
                assert(outcomes[i].is_miss());
            }
        }
        assert(resolution_steps(outcomes, next, (steps - 1) as nat) == next);
    }
}

/// A resolution over `n` candidates ends within `n` probes (the list
/// bounds the loop), and it ends at the first candidate that does not miss,
/// with that candidate's status, or exhausted when every candidate misses.
pub proof fn law_resolution_terminates(outcomes: Seq<RouteOutcome>)
    requires
        outcomes.len() <= usize::MAX,
    ensures
        resolution_steps(outcomes, initial_resolution(outcomes.len()), outcomes.len()).is_terminal(),
        resolution_steps(outcomes, initial_resolution(outcomes.len()), outcomes.len()) == resolved(
            outcomes,
        ),
{
    if outcomes.len() == 0 {
        assert(!exists|k: int| first_claim(outcomes, k));
    } else {
        lemma_steps_from(outcomes, 0);
        let r = resolved(outcomes);
        if exists|k: int| first_claim(outcomes, k) {
            assert(r is Found);
        }
    }
}

/// The per-request cursor over a shared, read-only candidate list.
pub struct RouteResolver<H> {
    routers: Rc<Vec<H>>,
    state: Resolution,
}

impl<H> RouteResolver<H> {
    /// The candidate list the cursor walks.
    pub closed spec fn candidates(&self) -> Seq<H> {
        self.routers@
    }

    pub closed spec fn resolution(&self) -> Resolution {
        self.state
    }

    /// The cursor stands inside the list.
    pub open spec fn wf(&self) -> bool {
        &&& self.candidates().len() <= usize::MAX
        &&& self.resolution().cursor() matches Some(i) ==> i < self.candidates().len()
    }

    /// Starts a resolution over `routers`: at the first candidate, or
    /// exhausted at once when the list is empty.
    pub fn new(routers: &Rc<Vec<H>>) -> (r: Self)
        ensures
            r.wf(),
            r.candidates() == routers@,
            r.resolution() == initial_resolution(routers@.len()),
    {
        let state = if routers.len() == 0 {
            Resolution::Exhausted
        } else {
            Resolution::Seeking(0)
        };
        RouteResolver { routers: share(routers), state }
    }

    /// Where the resolution stands.
    pub fn state(&self) -> (r: Resolution)
        ensures
            r == self.resolution(),
    {
        self.state
    }

    /// Moves the cursor past the candidate it stands on: `Ok` on the next
    /// candidate while one remains, `Err` once the list is used up, after
    /// which `get_router` gives `None` and `next` gives `Err` again.
    pub fn next(self) -> (r: Result<Self, Self>)
        requires
            self.wf(),
        ensures
            match self.resolution().cursor() {
                Some(i) => if i + 1 < self.candidates().len() {
                    r matches Ok(s) && s.resolution() == Resolution::Seeking((i + 1) as usize)
                } else {
                    r matches Err(s) && s.resolution() == Resolution::Exhausted
                },
                None => r matches Err(s) && s.resolution() == Resolution::Exhausted,
            },
            match r {
                Ok(s) => s,
                Err(s) => s,
            }.resolution() == advanced(self.candidates().len(), self.resolution()),
            match r {
                Ok(s) => s,
                Err(s) => s,
            }.candidates() == self.candidates(),
            match r {
                Ok(s) => s,
                Err(s) => s,
            }.wf(),
    {
        let mut s = self;
        let n = s.routers.len();
        let cursor = match s.state {
            Resolution::Seeking(i) => Some(i),
            Resolution::Found(i, _) => Some(i),
            Resolution::Exhausted => None,
        };
        match cursor {
            Some(i) => {
                if i < n - 1 {
                    s.state = Resolution::Seeking(i + 1);
                    Ok(s)
                } else {
                    s.state = Resolution::Exhausted;
                    Err(s)
                }
            },
            None => Err(s),
        }
    }

    /// The candidate under the cursor, or `None` once the list is exhausted.
    pub fn get_router(&self) -> (r: Option<&H>)
        requires
            self.wf(),
        ensures
            match self.resolution().cursor() {
                Some(i) => r == Some(&self.candidates()[i as int]),
                None => r is None,
            },
    {
        match self.state {
            Resolution::Seeking(i) => Some(&self.routers[i]),
            Resolution::Found(i, _) => Some(&self.routers[i]),
            Resolution::Exhausted => None,
        }
    }

    /// Records what the candidate under the cursor answered and hands its
    /// status back: `Ok` for a claim, `Err` for a rejection. The cursor stays
    /// where it is; anything but a miss ends the search at this candidate,
    /// and after a miss the caller moves on with `next`. A resolution that
    /// has ended stays as it is.
    pub fn route(&mut self, outcome: RouteOutcome) -> (r: Result<u16, u16>)
        requires
            old(self).wf(),
        ensures
            r == match outcome {
                RouteOutcome::Matched(s) => Ok::<u16, u16>(s),
                RouteOutcome::Rejected(s) => Err::<u16, u16>(s),
            },
            final(self).wf(),
            final(self).candidates() == old(self).candidates(),
            final(self).resolution() == routed(old(self).resolution(), outcome),
            final(self).resolution().cursor() == old(self).resolution().cursor(),
    {
        if let Resolution::Seeking(i) = self.state {
            if !outcome.is_miss() {
                self.state = Resolution::Found(i, outcome.status());
            }
        }
        match outcome {
            RouteOutcome::Matched(s) => Ok(s),
            RouteOutcome::Rejected(s) => Err(s),
        }
    }
}

} // verus!
