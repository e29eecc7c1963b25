//! What holds of the slope evaluation as a whole, over every request and
//! every outcome of the outside work.

use vstd::prelude::*;

use crate::api::{dependency_names, documented_evaluate_statuses, Deps};
use crate::flow::{next_step, Action, Coord, EvalRequest, Event, Next, Phase, SlopeFlow};
use crate::reply::{dependency_name, forwarded_status, CallOutcome, Dependency, Reply};
use crate::status::is_valid_status;

verus! {

/// The flow at the start of the evaluation of `request`, with its first call.
pub open spec fn started<J, N>(request: EvalRequest<J>) -> Next<J, N> {
    Next::Perform {
        flow: SlopeFlow { request, phase: Phase::AwaitingRise },
        action: Action::Subtract { minuend: Coord::Y2, subtrahend: Coord::Y1 },
    }
}

/// Where the evaluation stands after `events`, taken in order from `next`.
pub open spec fn drive<J, N>(next: Next<J, N>, events: Seq<Event<J, N>>) -> Next<J, N>
    decreases events.len(),
{
    if events.len() == 0 {
        next
    } else {
        match next {
            Next::Perform { flow, .. } => drive(next_step(flow, events[0]), events.drop_first()),
            Next::Finish { .. } => next,
        }
    }
}

/// The outside work asked for along the way, from `next` on, as `events`
/// come in.
pub open spec fn actions<J, N>(next: Next<J, N>, events: Seq<Event<J, N>>) -> Seq<Action<J, N>>
    decreases events.len(),
{
    match next {
        Next::Perform { flow, action } => if events.len() == 0 {
            seq![action]
        } else {
            seq![action] + actions(next_step(flow, events[0]), events.drop_first())
        },
        Next::Finish { .. } => seq![],
    }
}

/// The slope is `floatdivide(floatsubtract(y2, y1), floatsubtract(x2, x1))`:
/// when every dependency answers `200` with a numeric `result`, the service
/// asks for the rise, then the run, then their quotient (rise over run), and
/// replies `200` with the request echoed verbatim and the quotient as result.
pub proof fn slope_is_rise_over_run<J, N>(
    request: EvalRequest<J>,
    rise_body: J,
    rise: N,
    run_body: J,
    run: N,
    slope_body: J,
    slope: N,
)
    ensures
        ({
            let events = seq![
                Event::Called(CallOutcome::Answered { status: 200, body: rise_body }),
                Event::Read(Some(rise)),
                Event::Called(CallOutcome::Answered { status: 200, body: run_body }),
                Event::Read(Some(run)),
                Event::Called(CallOutcome::Answered { status: 200, body: slope_body }),
                Event::Read(Some(slope)),
            ];
            &&& drive(started::<J, N>(request), events) == (Next::Finish {
                reply: Reply::Evaluated { request, result: slope },
            })
            &&& actions(started::<J, N>(request), events) == seq![
                Action::Subtract { minuend: Coord::Y2, subtrahend: Coord::Y1 },
                Action::ReadResult { dependency: Dependency::FloatSubtract, body: rise_body },
                Action::Subtract { minuend: Coord::X2, subtrahend: Coord::X1 },
                Action::ReadResult { dependency: Dependency::FloatSubtract, body: run_body },
                Action::Divide { dividend: rise, divisor: run },
                Action::ReadResult { dependency: Dependency::FloatDivide, body: slope_body },
            ]
        }),
{
    let events = seq![
        Event::Called(CallOutcome::Answered { status: 200, body: rise_body }),
        Event::Read(Some(rise)),
        Event::Called(CallOutcome::Answered { status: 200, body: run_body }),
        Event::Read(Some(run)),
        Event::Called(CallOutcome::Answered { status: 200, body: slope_body }),
        Event::Read(Some(slope)),
    ];
    let e0 = Event::<J, N>::Called(CallOutcome::Answered { status: 200, body: rise_body });
    let e1 = Event::<J, N>::Read(Some(rise));
    let e2 = Event::<J, N>::Called(CallOutcome::Answered { status: 200, body: run_body });
    let e3 = Event::<J, N>::Read(Some(run));
    let e4 = Event::<J, N>::Called(CallOutcome::Answered { status: 200, body: slope_body });
    let e5 = Event::<J, N>::Read(Some(slope));
    assert(events.drop_first() =~= seq![e1, e2, e3, e4, e5]);
    assert(seq![e1, e2, e3, e4, e5].drop_first() =~= seq![e2, e3, e4, e5]);
    assert(seq![e2, e3, e4, e5].drop_first() =~= seq![e3, e4, e5]);
    assert(seq![e3, e4, e5].drop_first() =~= seq![e4, e5]);
    assert(seq![e4, e5].drop_first() =~= seq![e5]);
    assert(seq![e5].drop_first() =~= Seq::<Event<J, N>>::empty());

    let n6 = Next::<J, N>::Finish { reply: Reply::Evaluated { request, result: slope } };
    let n5 = Next::<J, N>::Perform {
        flow: SlopeFlow { request, phase: Phase::ReadingSlope },
        action: Action::ReadResult { dependency: Dependency::FloatDivide, body: slope_body },
    };
    let n4 = Next::<J, N>::Perform {
        flow: SlopeFlow { request, phase: Phase::AwaitingSlope },
        action: Action::Divide { dividend: rise, divisor: run },
    };
    let n3 = Next::<J, N>::Perform {
        flow: SlopeFlow { request, phase: Phase::ReadingRun { rise } },
        action: Action::ReadResult { dependency: Dependency::FloatSubtract, body: run_body },
    };
    let n2 = Next::<J, N>::Perform {
        flow: SlopeFlow { request, phase: Phase::AwaitingRun { rise } },
        action: Action::Subtract { minuend: Coord::X2, subtrahend: Coord::X1 },
    };
    let n1 = Next::<J, N>::Perform {
        flow: SlopeFlow { request, phase: Phase::ReadingRise },
        action: Action::ReadResult { dependency: Dependency::FloatSubtract, body: rise_body },
    };
    let n0 = started::<J, N>(request);

    assert(drive(n6, Seq::<Event<J, N>>::empty()) == n6);
    assert(drive(n5, seq![e5]) == n6);
    assert(drive(n4, seq![e4, e5]) == n6);
    assert(drive(n3, seq![e3, e4, e5]) == n6);
    assert(drive(n2, seq![e2, e3, e4, e5]) == n6);
    assert(drive(n1, seq![e1, e2, e3, e4, e5]) == n6);
    assert(drive(n0, events) == n6);

    assert(actions(n6, Seq::<Event<J, N>>::empty()) =~= seq![]);
    assert(actions(n5, seq![e5]) =~= seq![n5->action]);
    assert(actions(n4, seq![e4, e5]) =~= seq![n4->action, n5->action]);
    assert(actions(n3, seq![e3, e4, e5]) =~= seq![n3->action, n4->action, n5->action]);
    assert(actions(n2, seq![e2, e3, e4, e5]) =~= seq![n2->action, n3->action, n4->action, n5->action]);
    assert(actions(n1, seq![e1, e2, e3, e4, e5])
        =~= seq![n1->action, n2->action, n3->action, n4->action, n5->action]);
    assert(actions(n0, events)
        =~= seq![n0->action, n1->action, n2->action, n3->action, n4->action, n5->action]);
}

/// A dependency that rejects an input answers `422`, and the service
/// forwards that answer verbatim: the same status and the same body. This
/// covers a non-numeric coordinate (rejected by the subtraction) and a
/// vertical line (the division by a zero run, rejected by the division).
pub proof fn rejection_is_forwarded<J, N>(flow: SlopeFlow<J, N>, body: J)
    requires
        flow.phase.awaits_call(),
    ensures
        next_step(flow, Event::Called(CallOutcome::Answered { status: 422, body })) == (Next::<J, N>::Finish {
            reply: Reply::Forwarded { status: 422, body },
        }),
{
}

/// A dependency that cannot be reached, or that answers with a status other
/// than `200` or `422`, makes the service reply `503` naming that dependency.
pub proof fn unavailable_dependency_degrades<J, N>(flow: SlopeFlow<J, N>, outcome: CallOutcome<J>)
    requires
        flow.phase.awaits_call(),
        !(outcome matches CallOutcome::Answered { status, .. } && (status == 200 || status == 422)),
    ensures
        next_step(flow, Event::Called(outcome)) == (Next::<J, N>::Finish {
            reply: Reply::Degraded { dependency: flow.phase.awaited() },
        }),
        flow.phase.awaited() == (if flow.phase is AwaitingSlope {
            Dependency::FloatDivide
        } else {
            Dependency::FloatSubtract
        }),
{
}

/// A `200` answer without a numeric `result` makes the service reply `500`
/// naming the dependency that gave it.
pub proof fn missing_result_is_malformed<J, N>(flow: SlopeFlow<J, N>)
    requires
        !flow.phase.awaits_call(),
    ensures
        next_step(flow, Event::Read(None)) == (Next::<J, N>::Finish {
            reply: Reply::Malformed { dependency: flow.phase.awaited() },
        }),
{
}

/// Every reply the evaluation gives has a status that the API description
/// documents for `POST /`: `200`, `422`, `500` or `503`.
pub proof fn replies_are_documented<J, N>(flow: SlopeFlow<J, N>, event: Event<J, N>)
    requires
        flow.accepts(event),
    ensures
        next_step(flow, event) matches Next::Finish { reply }
            ==> documented_evaluate_statuses().contains(reply.status_code()),
{
    if let Next::Finish { reply } = next_step(flow, event) {
        let statuses = documented_evaluate_statuses();
        if reply.status_code() == 200 {
            assert(statuses[0] == 200);
        } else if reply.status_code() == 422 {
            assert(statuses[1] == 422);
        } else if reply.status_code() == 500 {
            assert(statuses[2] == 500);
        } else {
            assert(statuses[3] == 503);
        }
    }
}

/// Each step moves the evaluation one phase forward and keeps the request
/// as it came: after at most six steps (three calls, three reads) it replies.
/// A `200` reply echoes the request verbatim.
pub proof fn evaluation_moves_forward<J, N>(flow: SlopeFlow<J, N>, event: Event<J, N>)
    requires
        flow.accepts(event),
    ensures
        flow.phase.progress() <= 5,
        next_step(flow, event) matches Next::Perform { flow: after, .. } ==> {
            &&& after.phase.progress() == flow.phase.progress() + 1
            &&& after.request == flow.request
        },
        next_step(flow, event) matches Next::Finish { reply: Reply::Evaluated { request, .. } }
            ==> request == flow.request,
{
}

/// The division is asked for only once both differences are known, and with
/// the rise as dividend and the run as divisor.
pub proof fn division_follows_both_differences<J, N>(flow: SlopeFlow<J, N>, event: Event<J, N>)
    requires
        flow.accepts(event),
    ensures
        next_step(flow, event) matches Next::Perform { action: Action::Divide { dividend, divisor }, .. }
            ==> flow.phase == (Phase::ReadingRun { rise: dividend }) && event == Event::<J, N>::Read(Some(divisor)),
{
}

/// The service calls only the dependencies it declares: every dependency it
/// can call, or name in a reply, is one of the names in its identity.
pub proof fn only_declared_dependencies(dependency: Dependency)
    ensures
        dependency_names().contains(dependency_name(dependency)),
{
    match dependency {
        Dependency::FloatSubtract => assert(dependency_names()[0] == dependency_name(dependency)),
        Dependency::FloatDivide => assert(dependency_names()[1] == dependency_name(dependency)),
    }
}

/// A forwarded answer always carries a valid HTTP status; a `422` is
/// forwarded as `422`.
pub proof fn forwarded_status_is_valid(status: u16)
    ensures
        is_valid_status(forwarded_status(status)),
        is_valid_status(status) ==> forwarded_status(status) == status,
        forwarded_status(422) == 422,
{
}

/// Every subtraction, whatever coordinates it takes, is asked of
/// `srvcs-floatsubtract`; every division of `srvcs-floatdivide`; a read
/// concerns the dependency whose body it reads.
pub proof fn actions_target_their_service<J, N>(minuend: Coord, subtrahend: Coord, dividend: N, divisor: N, dependency: Dependency, body: J)
    ensures
        (Action::<J, N>::Subtract { minuend, subtrahend }).target() == Dependency::FloatSubtract,
        (Action::<J, N>::Divide { dividend, divisor }).target() == Dependency::FloatDivide,
        (Action::<J, N>::ReadResult { dependency, body }).target() == dependency,
        dependency_name(Dependency::FloatSubtract) == "srvcs-floatsubtract"@,
        dependency_name(Dependency::FloatDivide) == "srvcs-floatdivide"@,
{
}

/// Each dependency is reached at its own configured URL, whatever the URL
/// strings are: the subtraction at `floatsubtract_url`, the division at
/// `floatdivide_url`.
pub proof fn each_dependency_at_its_url(deps: Deps)
    ensures
        deps.url_of(Dependency::FloatSubtract) == deps.floatsubtract_url,
        deps.url_of(Dependency::FloatDivide) == deps.floatdivide_url,
{
}

/// A request's coordinates are read back as they came, each by its name.
pub proof fn coordinates_read_back<J>(request: EvalRequest<J>)
    ensures
        request.at(Coord::X1) == request.x1,
        request.at(Coord::Y1) == request.y1,
        request.at(Coord::X2) == request.x2,
        request.at(Coord::Y2) == request.y2,
{
}

/// The statuses and contents of the replies: `200` for the slope, `503` and
/// `500` naming the dependency with their messages, and a forwarded answer
/// under its own status.
pub proof fn reply_statuses<J, N>(request: EvalRequest<J>, result: N, status: u16, body: J, dependency: Dependency)
    ensures
        (Reply::<J, N>::Evaluated { request, result }).status_code() == 200,
        (Reply::<J, N>::Forwarded { status, body }).status_code() == status,
        (Reply::<J, N>::Degraded { dependency }).status_code() == 503,
        (Reply::<J, N>::Malformed { dependency }).status_code() == 500,
        (Reply::<J, N>::Degraded { dependency }).named_dependency() == Some(dependency),
        (Reply::<J, N>::Malformed { dependency }).named_dependency() == Some(dependency),
        (Reply::<J, N>::Evaluated { request, result }).named_dependency() is None,
        (Reply::<J, N>::Forwarded { status, body }).named_dependency() is None,
        (Reply::<J, N>::Degraded { dependency }).error_message() == Some("dependency unavailable"@),
        (Reply::<J, N>::Malformed { dependency }).error_message()
            == Some("dependency returned a malformed result"@),
        (Reply::<J, N>::Evaluated { request, result }).error_message() is None,
        (Reply::<J, N>::Forwarded { status, body }).error_message() is None,
{
}

/// How an answer is triaged, over every status and body: a `200` hands its
/// body on, a `422` is forwarded as it came, and anything else, or no answer,
/// is a `503` naming the dependency asked.
pub proof fn triage_by_status<J, N>(status: u16, body: J, dependency: Dependency)
    ensures
        status == 200 ==> crate::reply::triage::<J, N>(CallOutcome::Answered { status, body }, dependency) == Ok::<J, Reply<J, N>>(body),
        status == 422 ==> crate::reply::triage::<J, N>(CallOutcome::Answered { status, body }, dependency)
            == Err::<J, Reply<J, N>>(Reply::Forwarded { status: 422, body }),
        status != 200 && status != 422 ==> crate::reply::triage::<J, N>(CallOutcome::Answered { status, body }, dependency)
            == Err::<J, Reply<J, N>>(Reply::Degraded { dependency }),
        crate::reply::triage::<J, N>(CallOutcome::Unreachable, dependency)
            == Err::<J, Reply<J, N>>(Reply::Degraded { dependency }),
{
}

/// An answer under a status that is not a valid HTTP status is forwarded as
/// `502 Bad Gateway`.
pub proof fn invalid_status_forwarded_as_bad_gateway(status: u16)
    ensures
        status < 100 || status > 999 ==> forwarded_status(status) == 502,
        100 <= status <= 999 ==> forwarded_status(status) == status,
{
}

/// Which phases await a call, and which dependency each phase concerns: the
/// rise and the run concern `srvcs-floatsubtract`, the slope
/// `srvcs-floatdivide`.
pub proof fn phases_and_their_dependencies<N>(rise: N)
    ensures
        Phase::<N>::AwaitingRise.awaits_call(),
        (Phase::<N>::AwaitingRun { rise }).awaits_call(),
        Phase::<N>::AwaitingSlope.awaits_call(),
        !Phase::<N>::ReadingRise.awaits_call(),
        !(Phase::<N>::ReadingRun { rise }).awaits_call(),
        !Phase::<N>::ReadingSlope.awaits_call(),
        Phase::<N>::AwaitingRise.awaited() == Dependency::FloatSubtract,
        Phase::<N>::ReadingRise.awaited() == Dependency::FloatSubtract,
        (Phase::<N>::AwaitingRun { rise }).awaited() == Dependency::FloatSubtract,
        (Phase::<N>::ReadingRun { rise }).awaited() == Dependency::FloatSubtract,
        Phase::<N>::AwaitingSlope.awaited() == Dependency::FloatDivide,
        Phase::<N>::ReadingSlope.awaited() == Dependency::FloatDivide,
{
}

} // verus!
