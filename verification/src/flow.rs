//! The slope evaluation as a state machine. The service owns the control flow
//! and does no arithmetic of its own:
//!
//! 1. `dy = floatsubtract(y2, y1)` (the rise);
//! 2. `dx = floatsubtract(x2, x1)` (the run);
//! 3. `result = floatdivide(dy, dx)`.
//!
//! Each call is outside work (a network round trip), and so is reading the
//! numeric `result` out of a dependency's JSON body. The machine says which
//! work comes next; its driver performs it and hands back what came of it.

use vstd::prelude::*;

use crate::reply::{ask, malformed, ok, triage, CallOutcome, Dependency, Reply};

verus! {

/// The four coordinates of a slope request, as they came in.
pub struct EvalRequest<J> {
    /// The x-coordinate of the first point.
    pub x1: J,
    /// The y-coordinate of the first point.
    pub y1: J,
    /// The x-coordinate of the second point.
    pub x2: J,
    /// The y-coordinate of the second point.
    pub y2: J,
}

/// Names one coordinate of a request.
#[derive(Clone, Copy, Debug, PartialEq, Eq, Structural)]
pub enum Coord {
    X1,
    Y1,
    X2,
    Y2,
}

impl<J> EvalRequest<J> {
    /// The coordinate that `coord` names.
    pub open spec fn at(self, coord: Coord) -> J {
        match coord {
            Coord::X1 => self.x1,
            Coord::Y1 => self.y1,
            Coord::X2 => self.x2,
            Coord::Y2 => self.y2,
        }
    }

    /// The coordinate that `coord` names.
    pub fn coordinate(&self, coord: Coord) -> (value: &J)
        ensures
            *value == self.at(coord),
            coord == Coord::X1 ==> *value == self.x1,
            coord == Coord::Y1 ==> *value == self.y1,
            coord == Coord::X2 ==> *value == self.x2,
            coord == Coord::Y2 ==> *value == self.y2,
    {
        match coord {
            Coord::X1 => &self.x1,
            Coord::Y1 => &self.y1,
            Coord::X2 => &self.x2,
            Coord::Y2 => &self.y2,
        }
    }
}

/// Where the evaluation stands: which call it awaits the outcome of, or which
/// body it awaits the numeric `result` of, and the differences known so far.
pub enum Phase<N> {
    /// Awaiting `floatsubtract(y2, y1)`.
    AwaitingRise,
    /// Awaiting the numeric `result` of the rise's body.
    ReadingRise,
    /// Awaiting `floatsubtract(x2, x1)`; the rise is known.
    AwaitingRun { rise: N },
    /// Awaiting the numeric `result` of the run's body.
    ReadingRun { rise: N },
    /// Awaiting `floatdivide(rise, run)`.
    AwaitingSlope,
    /// Awaiting the numeric `result` of the division's body.
    ReadingSlope,
}

/// Outside work the evaluation asks for next.
pub enum Action<J, N> {
    /// Call `srvcs-floatsubtract` with `{"a": minuend, "b": subtrahend}`,
    /// each the request's coordinate of that name.
    Subtract { minuend: Coord, subtrahend: Coord },
    /// Call `srvcs-floatdivide` with `{"a": dividend, "b": divisor}`.
    Divide { dividend: N, divisor: N },
    /// Read the numeric `result` out of the `200` body that `dependency` gave.
    ReadResult { dependency: Dependency, body: J },
}

/// What came of the outside work: the outcome of a call, or the numeric
/// `result` read from a body (`None` when the body holds none).
pub enum Event<J, N> {
    Called(CallOutcome<J>),
    Read(Option<N>),
}

/// The evaluation of one slope request.
pub struct SlopeFlow<J, N> {
    pub request: EvalRequest<J>,
    pub phase: Phase<N>,
}

/// What a step leads to: more outside work, or the reply.
pub enum Next<J, N> {
    Perform { flow: SlopeFlow<J, N>, action: Action<J, N> },
    Finish { reply: Reply<J, N> },
}

impl<J, N> Action<J, N> {
    /// The dependency that the action calls, or whose body it reads.
    pub open spec fn target(self) -> Dependency {
        match self {
            Action::Subtract { .. } => Dependency::FloatSubtract,
            Action::Divide { .. } => Dependency::FloatDivide,
            Action::ReadResult { dependency, .. } => dependency,
        }
    }

    /// The dependency that the action calls, or whose body it reads.
    pub fn dependency(&self) -> (dependency: Dependency)
        ensures
            dependency == self.target(),
            self is Subtract ==> dependency == Dependency::FloatSubtract,
            self is Divide ==> dependency == Dependency::FloatDivide,
            self matches Action::ReadResult { dependency: read, .. } ==> dependency == read,
    {
        match self {
            Action::Subtract { .. } => Dependency::FloatSubtract,
            Action::Divide { .. } => Dependency::FloatDivide,
            Action::ReadResult { dependency, .. } => *dependency,
        }
    }
}

impl<N> Phase<N> {
    /// Whether the phase awaits the outcome of a call (rather than a read).
    pub open spec fn awaits_call(self) -> bool {
        match self {
            Phase::AwaitingRise | Phase::AwaitingRun { .. } | Phase::AwaitingSlope => true,
            _ => false,
        }
    }

    /// The dependency whose call or body the phase awaits.
    pub open spec fn awaited(self) -> Dependency {
        match self {
            Phase::AwaitingSlope | Phase::ReadingSlope => Dependency::FloatDivide,
            _ => Dependency::FloatSubtract,
        }
    }

    /// How far the evaluation has come: each step moves it forward.
    pub open spec fn progress(self) -> nat {
        match self {
            Phase::AwaitingRise => 0,
            Phase::ReadingRise => 1,
            Phase::AwaitingRun { .. } => 2,
            Phase::ReadingRun { .. } => 3,
            Phase::AwaitingSlope => 4,
            Phase::ReadingSlope => 5,
        }
    }
}

impl<J, N> Event<J, N> {
    /// Whether the event is the outcome of a call (rather than a read).
    pub open spec fn is_call_outcome(self) -> bool {
        self is Called
    }
}

/// The action that follows the `200` body `body` of a call to `dependency`:
/// reading its numeric `result`.
pub open spec fn read_next<J, N>(
    request: EvalRequest<J>,
    reading: Phase<N>,
    dependency: Dependency,
    answer: Result<J, Reply<J, N>>,
) -> Next<J, N> {
    match answer {
        Ok(body) => Next::Perform {
            flow: SlopeFlow { request, phase: reading },
            action: Action::ReadResult { dependency, body },
        },
        Err(reply) => Next::Finish { reply },
    }
}

/// One step of the evaluation: what follows `event` in `flow`.
pub open spec fn next_step<J, N>(flow: SlopeFlow<J, N>, event: Event<J, N>) -> Next<J, N> {
    let request = flow.request;
    match (flow.phase, event) {
        (Phase::AwaitingRise, Event::Called(outcome)) => read_next(
            request,
            Phase::ReadingRise,
            Dependency::FloatSubtract,
            triage(outcome, Dependency::FloatSubtract),
        ),
        (Phase::ReadingRise, Event::Read(Some(rise))) => Next::Perform {
            flow: SlopeFlow { request, phase: Phase::AwaitingRun { rise } },
            action: Action::Subtract { minuend: Coord::X2, subtrahend: Coord::X1 },
        },
        (Phase::AwaitingRun { rise }, Event::Called(outcome)) => read_next(
            request,
            Phase::ReadingRun { rise },
            Dependency::FloatSubtract,
            triage(outcome, Dependency::FloatSubtract),
        ),
        (Phase::ReadingRun { rise }, Event::Read(Some(run))) => Next::Perform {
            flow: SlopeFlow { request, phase: Phase::AwaitingSlope },
            action: Action::Divide { dividend: rise, divisor: run },
        },
        (Phase::AwaitingSlope, Event::Called(outcome)) => read_next(
            request,
            Phase::ReadingSlope,
            Dependency::FloatDivide,
            triage(outcome, Dependency::FloatDivide),
        ),
        (Phase::ReadingSlope, Event::Read(Some(slope))) => Next::Finish {
            reply: Reply::Evaluated { request, result: slope },
        },
        // A read that found no numeric `result`.
        (phase, _) => Next::Finish { reply: Reply::Malformed { dependency: phase.awaited() } },
    }
}

impl<J, N> SlopeFlow<J, N> {
    /// Whether `event` is what the flow awaits: the outcome of a call in a
    /// phase that awaits one, a read otherwise.
    pub open spec fn accepts(self, event: Event<J, N>) -> bool {
        self.phase.awaits_call() == event.is_call_outcome()
    }

    /// Begin the evaluation of `request`: the first call is the rise,
    /// `floatsubtract(y2, y1)`.
    pub fn start(request: EvalRequest<J>) -> (r: (SlopeFlow<J, N>, Action<J, N>))
        ensures
            r.0 == (SlopeFlow::<J, N> { request, phase: Phase::AwaitingRise }),
            r.1 == (Action::<J, N>::Subtract { minuend: Coord::Y2, subtrahend: Coord::Y1 }),
    {
        (
            SlopeFlow { request, phase: Phase::AwaitingRise },
            Action::Subtract { minuend: Coord::Y2, subtrahend: Coord::Y1 },
        )
    }

    /// The request under evaluation.
    pub fn request(&self) -> (request: &EvalRequest<J>)
        ensures
            *request == self.request,
    {
        &self.request
    }

    /// Whether the flow awaits the outcome of a call (and not a read).
    pub fn awaits_call(&self) -> (r: bool)
        ensures
            r == self.phase.awaits_call(),
    {
        match self.phase {
            Phase::AwaitingRise | Phase::AwaitingRun { .. } | Phase::AwaitingSlope => true,
            _ => false,
        }
    }

    /// Advance the evaluation by what came of the last outside work.
    pub fn step(self, event: Event<J, N>) -> (next: Next<J, N>)
        requires
            self.accepts(event),
        ensures
            next == next_step(self, event),
    {
        let request = self.request;
        match self.phase {
            Phase::AwaitingRise => match event {
                Event::Called(outcome) => match ask(outcome, Dependency::FloatSubtract) {
                    Ok(body) => Next::Perform {
                        flow: SlopeFlow { request, phase: Phase::ReadingRise },
                        action: Action::ReadResult { dependency: Dependency::FloatSubtract, body },
                    },
                    Err(reply) => Next::Finish { reply },
                },
                Event::Read(_) => Next::Finish { reply: malformed(Dependency::FloatSubtract) },
            },
            Phase::ReadingRise => match event {
                Event::Read(Some(rise)) => Next::Perform {
                    flow: SlopeFlow { request, phase: Phase::AwaitingRun { rise } },
                    action: Action::Subtract { minuend: Coord::X2, subtrahend: Coord::X1 },
                },
                _ => Next::Finish { reply: malformed(Dependency::FloatSubtract) },
            },
            Phase::AwaitingRun { rise } => match event {
                Event::Called(outcome) => match ask(outcome, Dependency::FloatSubtract) {
                    Ok(body) => Next::Perform {
                        flow: SlopeFlow { request, phase: Phase::ReadingRun { rise } },
                        action: Action::ReadResult { dependency: Dependency::FloatSubtract, body },
                    },
                    Err(reply) => Next::Finish { reply },
                },
                Event::Read(_) => Next::Finish { reply: malformed(Dependency::FloatSubtract) },
            },
            Phase::ReadingRun { rise } => match event {
                Event::Read(Some(run)) => Next::Perform {
                    flow: SlopeFlow { request, phase: Phase::AwaitingSlope },
                    action: Action::Divide { dividend: rise, divisor: run },
                },
                _ => Next::Finish { reply: malformed(Dependency::FloatSubtract) },
            },
            Phase::AwaitingSlope => match event {
                Event::Called(outcome) => match ask(outcome, Dependency::FloatDivide) {
                    Ok(body) => Next::Perform {
                        flow: SlopeFlow { request, phase: Phase::ReadingSlope },
                        action: Action::ReadResult { dependency: Dependency::FloatDivide, body },
                    },
                    Err(reply) => Next::Finish { reply },
                },
                Event::Read(_) => Next::Finish { reply: malformed(Dependency::FloatDivide) },
            },
            Phase::ReadingSlope => match event {
                Event::Read(Some(slope)) => Next::Finish { reply: ok(request, slope) },
                _ => Next::Finish { reply: malformed(Dependency::FloatDivide) },
            },
        }
    }
}

} // verus!
