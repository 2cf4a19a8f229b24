//! The dispatch engine: an ordered candidate list and a fallback, and the
//! per-request state machine that decides which of them answers.
//!
//! Probing and dispatching may suspend, so the engine does not call handlers
//! itself. `RouterService::handle` starts a `Handling` for one request; its
//! caller performs each `Action` the machine names and hands back the `Event`
//! that came of it, until the machine says `Respond`.
use std::rc::Rc;
use vstd::prelude::*;

use crate::resolver::{
    initial_resolution,
    resolution_after,
    Resolution,
    RouteOutcome,
    RouteResolver,
};
use crate::status::NOT_FOUND;

verus! {

/// Where the handling of one request stands.
#[derive(Clone, Copy, Debug, PartialEq, Eq, Structural)]
pub enum Stage {
    /// Candidate `i` is being probed.
    Probing(usize),
    /// Candidate `i` claimed the request and dispatches it with this status.
    Dispatching(usize, u16),
    /// The fallback renders a failure with this status.
    Recovering(u16),
    /// The response is ready.
    Done,
}

/// What the caller has to do next for a request.
#[derive(Clone, Copy, Debug, PartialEq, Eq, Structural)]
pub enum Action {
    /// Probe candidate `i` with the request.
    Probe(usize),
    /// Let candidate `i` dispatch the request with this status.
    Dispatch(usize, u16),
    /// Let the fallback render a failure with this status.
    Fallback(u16),
    /// Send the response that was produced.
    Respond,
}

/// What came of an action.
#[derive(Clone, Copy, Debug, PartialEq, Eq, Structural)]
pub enum Event {
    /// The probed candidate answered.
    Probed(RouteOutcome),
    /// The candidate's dispatch produced a response.
    Dispatched,
    /// The candidate's dispatch failed with this status.
    DispatchFailed(u16),
    /// The fallback produced a response; it never fails.
    Rendered,
}

/// The stage that a resolution state leads to.
pub open spec fn stage_of(r: Resolution) -> Stage {
    match r {
        Resolution::Seeking(i) => Stage::Probing(i),
        Resolution::Found(i, s) => Stage::Dispatching(i, s),
        Resolution::Exhausted => Stage::Recovering(NOT_FOUND),
    }
}

/// The stage a request over `n` candidates starts in.
pub open spec fn initial_stage(n: nat) -> Stage {
    stage_of(initial_resolution(n))
}

/// The action a stage asks for.
pub open spec fn action_of(st: Stage) -> Action {
    match st {
        Stage::Probing(i) => Action::Probe(i),
        Stage::Dispatching(i, s) => Action::Dispatch(i, s),
        Stage::Recovering(s) => Action::Fallback(s),
        Stage::Done => Action::Respond,
    }
}

/// The stage after event `ev`, with `n` candidates. An event that does not
/// answer the stage's action leaves the stage as it is.
pub open spec fn stage_after(n: nat, st: Stage, ev: Event) -> Stage {
    match st {
        Stage::Probing(i) => match ev {
            Event::Probed(o) => stage_of(resolution_after(n, Resolution::Seeking(i), o)),
            _ => st,
        },
        Stage::Dispatching(_, _) => match ev {
            Event::Dispatched => Stage::Done,
            Event::DispatchFailed(e) => Stage::Recovering(e),
            _ => st,
        },
        Stage::Recovering(_) => match ev {
            Event::Rendered => Stage::Done,
            _ => st,
        },
        Stage::Done => st,
    }
}

fn stage_for(r: Resolution) -> (st: Stage)
    ensures
        st == stage_of(r),
{
    match r {
        Resolution::Seeking(i) => Stage::Probing(i),
        Resolution::Found(i, s) => Stage::Dispatching(i, s),
        Resolution::Exhausted => Stage::Recovering(NOT_FOUND),
    }
}

fn action_for(st: Stage) -> (a: Action)
    ensures
        a == action_of(st),
{
    match st {
        Stage::Probing(i) => Action::Probe(i),
        Stage::Dispatching(i, s) => Action::Dispatch(i, s),
        Stage::Recovering(s) => Action::Fallback(s),
        Stage::Done => Action::Respond,
    }
}

/// The handling of one request: the resolver's cursor and the stage.
pub struct Handling<H> {
    /// Always present; taken out only while `next` consumes it.
    resolver: Option<RouteResolver<H>>,
    stage: Stage,
}

impl<H> Handling<H> {
    /// The candidate list, shared with the engine.
    pub closed spec fn candidates(&self) -> Seq<H> {
        self.resolver->Some_0.candidates()
    }

    pub closed spec fn stage(&self) -> Stage {
        self.stage
    }

    pub closed spec fn wf(&self) -> bool {
        &&& self.resolver is Some
        &&& self.resolver->Some_0.wf()
        &&& match self.stage {
            Stage::Probing(i) => self.resolver->Some_0.resolution() == Resolution::Seeking(i),
            Stage::Dispatching(i, s) => self.resolver->Some_0.resolution() == Resolution::Found(
                i,
                s,
            ),
            _ => self.resolver->Some_0.resolution().is_terminal(),
        }
    }

    /// The stage the request is in.
    pub fn current_stage(&self) -> (r: Stage)
        ensures
            r == self.stage(),
    {
        self.stage
    }

    /// The action the request waits on.
    pub fn action(&self) -> (r: Action)
        ensures
            r == action_of(self.stage()),
    {
        action_for(self.stage)
    }

    /// The candidate that the pending action names: the one being probed or
    /// dispatching; `None` while the fallback works and once done.
    pub fn get_router(&self) -> (r: Option<&H>)
        requires
            self.wf(),
        ensures
            match self.stage() {
                Stage::Probing(i) => r == Some(&self.candidates()[i as int]),
                Stage::Dispatching(i, _) => r == Some(&self.candidates()[i as int]),
                _ => r is None,
            },
    {
        match (&self.stage, &self.resolver) {
            (Stage::Probing(_), Some(resolver)) => resolver.get_router(),
            (Stage::Dispatching(_, _), Some(resolver)) => resolver.get_router(),
            _ => None,
        }
    }

    /// Takes in what came of the pending action and returns the next one.
    pub fn on_event(&mut self, ev: Event) -> (r: Action)
        requires
            old(self).wf(),
        ensures
            final(self).wf(),
            final(self).candidates() == old(self).candidates(),
            final(self).stage() == stage_after(
                old(self).candidates().len(),
                old(self).stage(),
                ev,
            ),
            r == action_of(final(self).stage()),
    {
        match self.stage {
            Stage::Probing(_) => {
                if let Event::Probed(o) = ev {
                    if let Some(mut resolver) = self.resolver.take() {
                        let answer = resolver.route(o);
                        if let Err(NOT_FOUND) = answer {
                            resolver = match resolver.next() {
                                Ok(moved) => moved,
                                Err(used_up) => used_up,
                            };
                        }
                        self.stage = stage_for(resolver.state());
                        self.resolver = Some(resolver);
                    }
                }
            },
            Stage::Dispatching(_, _) => {
                match ev {
                    Event::Dispatched => {
                        self.stage = Stage::Done;
                    },
                    Event::DispatchFailed(e) => {
                        self.stage = Stage::Recovering(e);
                    },
                    _ => {},
                }
            },
            Stage::Recovering(_) => {
                if let Event::Rendered = ev {
                    self.stage = Stage::Done;
                }
            },
            Stage::Done => {},
        }
        action_for(self.stage)
    }
}

/// An engine whose fallback is a handler of the same kind as its candidates.
pub type RootService<H> = RouterService<H, H>;

/// The dispatch engine: an ordered candidate list, fixed at construction and
/// shared read-only with every request, and the fallback that answers when
/// no candidate does.
pub struct RouterService<H, E> {
    /// Candidates, probed in order for each request.
    routers: Rc<Vec<H>>,
    /// Renders the failure when nothing claims a request or a dispatch fails.
    error_handler: E,
}

impl<H, E> RouterService<H, E> {
    pub closed spec fn candidates(&self) -> Seq<H> {
        self.routers@
    }

    pub closed spec fn fallback(&self) -> E {
        self.error_handler
    }

    /// Builds the engine from its candidates, in the order they are to be
    /// tried, and its fallback.
    pub fn new(routers: Vec<H>, error_handler: E) -> (r: Self)
        ensures
            r.candidates() == routers@,
            r.fallback() == error_handler,
    {
        RouterService { routers: Rc::new(routers), error_handler }
    }

    /// The number of candidates.
    pub fn len(&self) -> (r: usize)
        ensures
            r == self.candidates().len(),
    {
        self.routers.len()
    }

    /// Candidate `i`.
    pub fn router(&self, i: usize) -> (r: &H)
        requires
            i < self.candidates().len(),
        ensures
            *r == self.candidates()[i as int],
    {
        &self.routers[i]
    }

    /// The fallback.
    pub fn error_handler(&self) -> (r: &E)
        ensures
            *r == self.fallback(),
    {
        &self.error_handler
    }

    /// Starts the handling of one request.
    pub fn handle(&self) -> (r: Handling<H>)
        ensures
            r.wf(),
            r.candidates() == self.candidates(),
            r.stage() == initial_stage(self.candidates().len()),
    {
        let resolver = RouteResolver::new(&self.routers);
        let stage = stage_for(resolver.state());
        Handling { resolver: Some(resolver), stage }
    }
}

} // verus!
