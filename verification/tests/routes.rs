use serde_json::Value;
use srvcs_slope::flow::{Action, EvalRequest, Event, Next, SlopeFlow};
use srvcs_slope::reply::{CallOutcome, Dependency, Reply};

fn obj(pairs: Vec<(&str, Value)>) -> Value {
    let mut map = serde_json::Map::new();
    for (k, v) in pairs {
        map.insert(k.to_string(), v);
    }
    Value::Object(map)
}

fn num(x: f64) -> Value {
    Value::from(x)
}

fn whole(x: i64) -> Value {
    Value::from(x)
}

/// A dependency that cannot be reached.
fn dead(_a: &Value, _b: &Value) -> CallOutcome<Value> {
    CallOutcome::Unreachable
}

/// `srvcs-floatsubtract`: reads `{a, b}` -> `{"result": a - b}`.
fn floatsubtract(a: &Value, b: &Value) -> CallOutcome<Value> {
    let a = a.as_f64().unwrap_or(0.0);
    let b = b.as_f64().unwrap_or(0.0);
    CallOutcome::Answered { status: 200, body: obj(vec![("result", num(a - b))]) }
}

/// `srvcs-floatdivide`: reads `{a, b}` -> `{"result": a / b}`, but rejects
/// division by zero with `422`.
fn floatdivide(a: &Value, b: &Value) -> CallOutcome<Value> {
    let a = a.as_f64().unwrap_or(0.0);
    let b = b.as_f64().unwrap_or(0.0);
    if b == 0.0 {
        return CallOutcome::Answered {
            status: 422,
            body: obj(vec![("error", Value::from("division by zero"))]),
        };
    }
    CallOutcome::Answered { status: 200, body: obj(vec![("result", num(a / b))]) }
}

fn fixed_422_not_a_number(_a: &Value, _b: &Value) -> CallOutcome<Value> {
    CallOutcome::Answered {
        status: 422,
        body: obj(vec![("error", Value::from("value is not a number"))]),
    }
}

fn fixed_200_not_a_number(_a: &Value, _b: &Value) -> CallOutcome<Value> {
    CallOutcome::Answered {
        status: 200,
        body: obj(vec![("result", Value::from("not-a-number"))]),
    }
}

type Service = fn(&Value, &Value) -> CallOutcome<Value>;

/// Runs the evaluation against the two services, as the server does: each
/// call gets `{"a", "b"}`, and a `200` body's `result` is read as a number.
fn slope(
    floatsubtract: Service,
    floatdivide: Service,
    x1: Value,
    y1: Value,
    x2: Value,
    y2: Value,
) -> (Reply<Value, f64>, usize) {
    let request = EvalRequest { x1, y1, x2, y2 };
    let (mut flow, mut action): (SlopeFlow<Value, f64>, Action<Value, f64>) =
        SlopeFlow::start(request);
    let mut steps = 0;
    loop {
        let event = match &action {
            Action::Subtract { minuend, subtrahend } => Event::Called(floatsubtract(
                flow.request().coordinate(*minuend),
                flow.request().coordinate(*subtrahend),
            )),
            Action::Divide { dividend, divisor } => {
                Event::Called(floatdivide(&num(*dividend), &num(*divisor)))
            }
            Action::ReadResult { body, .. } => {
                Event::Read(body.get("result").and_then(Value::as_f64))
            }
        };
        assert_eq!(flow.awaits_call(), matches!(event, Event::Called(_)));
        steps += 1;
        match flow.step(event) {
            Next::Perform { flow: f, action: a } => {
                flow = f;
                action = a;
            }
            Next::Finish { reply } => return (reply, steps),
        }
    }
}

fn result_f64(reply: &Reply<Value, f64>) -> f64 {
    match reply {
        Reply::Evaluated { result, .. } => *result,
        _ => panic!("result is a JSON number"),
    }
}

fn body_field(reply: &Reply<Value, f64>, key: &str) -> Value {
    match reply {
        Reply::Forwarded { body, .. } => body[key].clone(),
        _ => match key {
            "error" => Value::from(reply.error().unwrap_or("")),
            "dependency" => Value::from(reply.dependency().map(|d| d.name()).unwrap_or("")),
            _ => Value::Null,
        },
    }
}

#[test]
fn slope_0_0_2_4_is_2() {
    let (reply, _) = slope(floatsubtract, floatdivide, whole(0), whole(0), whole(2), whole(4));
    assert_eq!(reply.status(), 200);
    // dy = 4 - 0 = 4; dx = 2 - 0 = 2; 4 / 2 = 2.0
    assert!((result_f64(&reply) - 2.0).abs() < 1e-9);
    // The coordinates are echoed back verbatim.
    match &reply {
        Reply::Evaluated { request, .. } => {
            assert_eq!(request.x1, whole(0));
            assert_eq!(request.y1, whole(0));
            assert_eq!(request.x2, whole(2));
            assert_eq!(request.y2, whole(4));
        }
        _ => panic!("expected the evaluated reply"),
    }
}

#[test]
fn slope_horizontal_line_is_zero() {
    let (reply, _) = slope(floatsubtract, floatdivide, whole(-3), whole(5), whole(7), whole(5));
    assert_eq!(reply.status(), 200);
    // dy = 5 - 5 = 0; dx = 7 - (-3) = 10; 0 / 10 = 0.0
    assert!(result_f64(&reply).abs() < 1e-9);
}

#[test]
fn slope_negative() {
    let (reply, _) = slope(floatsubtract, floatdivide, whole(0), whole(4), whole(2), whole(0));
    assert_eq!(reply.status(), 200);
    // dy = 0 - 4 = -4; dx = 2 - 0 = 2; -4 / 2 = -2.0
    assert!((result_f64(&reply) + 2.0).abs() < 1e-9);
}

#[test]
fn slope_fractional() {
    let (reply, _) = slope(floatsubtract, floatdivide, num(1.0), num(1.0), num(4.0), num(2.0));
    assert_eq!(reply.status(), 200);
    // dy = 2 - 1 = 1; dx = 4 - 1 = 3; 1 / 3 = 0.3333...
    assert!((result_f64(&reply) - (1.0 / 3.0)).abs() < 1e-9);
}

#[test]
fn vertical_line_forwards_422_from_floatdivide() {
    // dx == 0: floatsubtract succeeds, but floatdivide rejects division by zero
    // with a 422 that slope forwards verbatim.
    let (reply, _) = slope(floatsubtract, floatdivide, whole(3), whole(1), whole(3), whole(9));
    assert_eq!(reply.status(), 422);
    assert_eq!(body_field(&reply, "error"), "division by zero");
}

#[test]
fn forwards_422_from_floatsubtract() {
    // A non-numeric coordinate is rejected by floatsubtract; slope forwards it.
    let (reply, _) = slope(
        fixed_422_not_a_number,
        floatdivide,
        whole(0),
        whole(0),
        Value::from("nope"),
        whole(4),
    );
    assert_eq!(reply.status(), 422);
    assert_eq!(body_field(&reply, "error"), "value is not a number");
}

#[test]
fn degrades_when_floatsubtract_unreachable() {
    let (reply, _) = slope(dead, floatdivide, whole(0), whole(0), whole(2), whole(4));
    assert_eq!(reply.status(), 503);
    assert_eq!(body_field(&reply, "dependency"), "srvcs-floatsubtract");
}

#[test]
fn degrades_when_floatdivide_unreachable() {
    // floatsubtract is reachable so both differences compute and the pipeline
    // reaches the floatdivide call, which then degrades.
    let (reply, _) = slope(floatsubtract, dead, whole(0), whole(0), whole(2), whole(4));
    assert_eq!(reply.status(), 503);
    assert_eq!(body_field(&reply, "dependency"), "srvcs-floatdivide");
}

#[test]
fn malformed_floatsubtract_result_is_500() {
    let (reply, _) = slope(fixed_200_not_a_number, floatdivide, whole(0), whole(0), whole(2), whole(4));
    assert_eq!(reply.status(), 500);
    assert_eq!(body_field(&reply, "dependency"), "srvcs-floatsubtract");
}

#[test]
fn malformed_floatdivide_result_is_500() {
    let (reply, _) = slope(floatsubtract, fixed_200_not_a_number, whole(0), whole(0), whole(2), whole(4));
    assert_eq!(reply.status(), 500);
    assert_eq!(body_field(&reply, "dependency"), "srvcs-floatdivide");
}

#[test]
fn evaluation_takes_six_steps_on_success() {
    let (reply, steps) = slope(floatsubtract, floatdivide, whole(0), whole(0), whole(2), whole(4));
    assert_eq!(reply.status(), 200);
    assert_eq!(steps, 6);
}

#[test]
fn failing_rise_stops_before_the_run() {
    let (reply, steps) = slope(dead, floatdivide, whole(0), whole(0), whole(2), whole(4));
    assert_eq!(reply.status(), 503);
    assert_eq!(steps, 1);
}

#[test]
fn degraded_and_malformed_replies_carry_messages() {
    let (reply, _) = slope(dead, floatdivide, whole(0), whole(0), whole(2), whole(4));
    assert_eq!(body_field(&reply, "error"), "dependency unavailable");
    let (reply, _) = slope(floatsubtract, fixed_200_not_a_number, whole(0), whole(0), whole(2), whole(4));
    assert_eq!(body_field(&reply, "error"), "dependency returned a malformed result");
    assert_eq!(reply.dependency(), Some(Dependency::FloatDivide));
}

#[test]
fn calls_go_in_order_with_rise_over_run() {
    // Each action names its operands; the rise is y2 - y1, the run x2 - x1,
    // and the slope rise / run.
    let request = EvalRequest { x1: whole(1), y1: whole(10), x2: whole(3), y2: whole(20) };
    let (flow, action): (SlopeFlow<Value, f64>, Action<Value, f64>) = SlopeFlow::start(request);
    match &action {
        Action::Subtract { minuend, subtrahend } => {
            assert_eq!(flow.request().coordinate(*minuend), &whole(20));
            assert_eq!(flow.request().coordinate(*subtrahend), &whole(10));
        }
        _ => panic!("the rise comes first"),
    }
    assert_eq!(action.dependency(), Dependency::FloatSubtract);
    let ok = |x: f64| CallOutcome::Answered { status: 200, body: obj(vec![("result", num(x))]) };
    let next = flow.step(Event::Called(ok(10.0)));
    let (flow, action) = match next {
        Next::Perform { flow, action } => (flow, action),
        _ => panic!("a read follows"),
    };
    assert_eq!(action.dependency(), Dependency::FloatSubtract);
    let (flow, action) = match flow.step(Event::Read(Some(10.0))) {
        Next::Perform { flow, action } => (flow, action),
        _ => panic!("the run follows"),
    };
    match &action {
        Action::Subtract { minuend, subtrahend } => {
            assert_eq!(flow.request().coordinate(*minuend), &whole(3));
            assert_eq!(flow.request().coordinate(*subtrahend), &whole(1));
        }
        _ => panic!("the run comes second"),
    }
    let (flow, _) = match flow.step(Event::Called(ok(2.0))) {
        Next::Perform { flow, action } => (flow, action),
        _ => panic!("a read follows"),
    };
    let (flow, action) = match flow.step(Event::Read(Some(2.0))) {
        Next::Perform { flow, action } => (flow, action),
        _ => panic!("the division follows"),
    };
    match &action {
        Action::Divide { dividend, divisor } => {
            assert_eq!(*dividend, 10.0);
            assert_eq!(*divisor, 2.0);
        }
        _ => panic!("the division comes third"),
    }
    assert_eq!(action.dependency(), Dependency::FloatDivide);
    assert!(flow.awaits_call());
}
