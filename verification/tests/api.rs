use serde_json::Value;
use srvcs_vectoradd::evaluation::{ask, DependencyReply, EvalRequest, Evaluation, Next};
use srvcs_vectoradd::openapi::ApiDoc;
use srvcs_vectoradd::reply::{
    degraded, forward, length_mismatch, malformed, status_or_bad_gateway, FieldValue, Reply,
};
use srvcs_vectoradd::service::index;

type VectorReply = Reply<Value, f64, Value>;

/// A JSON object with the given fields.
fn object(fields: &[(&str, Value)]) -> Value {
    let mut m = serde_json::Map::new();
    for (k, v) in fields {
        m.insert(k.to_string(), v.clone());
    }
    Value::Object(m)
}

fn numbers(xs: &[f64]) -> Vec<Value> {
    xs.iter().map(|x| Value::from(*x)).collect()
}

fn ints(xs: &[i64]) -> Vec<Value> {
    xs.iter().map(|x| Value::from(*x)).collect()
}

/// What an answer of the dependency becomes: its status, the numeric
/// `result` of its body if there is one, and the body.
fn answered(status: u16, body: Value) -> DependencyReply<f64, Value> {
    let result = body.get("result").and_then(Value::as_f64);
    DependencyReply::Answered { status, result, body }
}

/// The computing `srvcs-floatadd`: `{a, b}` -> `{"result": a + b}`.
fn floatadd(a: &Value, b: &Value) -> DependencyReply<f64, Value> {
    let a = a.as_f64().unwrap_or(0.0);
    let b = b.as_f64().unwrap_or(0.0);
    answered(200, object(&[("result", Value::from(a + b))]))
}

/// Runs an evaluation to its reply, answering each call with `dependency`;
/// also counts the calls.
fn run(
    a: Vec<Value>,
    b: Vec<Value>,
    dependency: impl Fn(&Value, &Value) -> DependencyReply<f64, Value>,
) -> (VectorReply, usize) {
    let mut calls = 0;
    let mut next: Next<Value, f64, Value> = Evaluation::begin(EvalRequest { a, b });
    loop {
        match next {
            Next::Respond(reply) => return (reply, calls),
            Next::Call(evaluation) => {
                assert_eq!(evaluation.position(), calls);
                let (x, y) = evaluation.operands();
                let answer = dependency(x, y);
                calls += 1;
                next = evaluation.resume(answer);
            }
        }
    }
}

/// Assert two `f64` lists are equal element-wise within 1e-9.
fn assert_list_close(reply: &VectorReply, expected: &[f64]) {
    match reply {
        Reply::Evaluated(r) => {
            assert_eq!(r.result.len(), expected.len(), "result length mismatch");
            for (g, e) in r.result.iter().zip(expected.iter()) {
                assert!((g - e).abs() < 1e-9, "element {g} not within 1e-9 of {e}");
            }
        }
        _ => panic!("expected a 200 reply"),
    }
}

fn dependency_of(reply: &VectorReply) -> Option<&'static str> {
    match reply {
        Reply::Degraded { dependency } | Reply::Malformed { dependency } => Some(dependency),
        _ => None,
    }
}

#[test]
fn openapi_documents_routes() {
    let doc = ApiDoc::openapi();
    let root = doc.paths.get("/").expect("path / present");
    assert!(root.get.is_some());
    assert!(root.post.is_some());
}

#[test]
fn index_reports_dependency() {
    let info = index();
    assert_eq!(info.service, "srvcs-vectoradd");
    assert_eq!(info.concern, "vectors: component-wise addition");
    assert_eq!(info.depends_on, vec!["srvcs-floatadd"]);
}

#[test]
fn index_reports_identity() {
    let info = index();
    assert_eq!(info.service, "srvcs-vectoradd");
    assert_eq!(info.concern, "vectors: component-wise addition");
    assert_eq!(info.depends_on, vec!["srvcs-floatadd"]);
}

#[test]
fn vectoradd_1_2_3_4_is_4_6() {
    let (reply, _) = run(ints(&[1, 2]), ints(&[3, 4]), floatadd);
    assert_eq!(reply.status(), 200);
    match &reply {
        Reply::Evaluated(r) => {
            assert_eq!(r.a, ints(&[1, 2]));
            assert_eq!(r.b, ints(&[3, 4]));
        }
        _ => panic!("expected a 200 reply"),
    }
    assert_list_close(&reply, &[4.0, 6.0]);
}

#[test]
fn vectoradd_empty_is_empty() {
    let (reply, calls) = run(vec![], vec![], floatadd);
    assert_eq!(reply.status(), 200);
    assert_list_close(&reply, &[]);
    assert_eq!(calls, 0);
}

#[test]
fn vectoradd_fractional_and_negative() {
    let (reply, _) = run(numbers(&[1.5, -2.0, 0.0]), numbers(&[0.25, 2.0, -3.5]), floatadd);
    assert_eq!(reply.status(), 200);
    assert_list_close(&reply, &[1.75, 0.0, -3.5]);
}

#[test]
fn vectoradd_single_element() {
    let (reply, _) = run(ints(&[10]), ints(&[32]), floatadd);
    assert_eq!(reply.status(), 200);
    assert_list_close(&reply, &[42.0]);
}

#[test]
fn echoes_input_vectors() {
    let (reply, _) = run(ints(&[1, 2]), ints(&[3, 4]), floatadd);
    assert_eq!(reply.status(), 200);
    match &reply {
        Reply::Evaluated(r) => {
            assert_eq!(r.a, ints(&[1, 2]));
            assert_eq!(r.b, ints(&[3, 4]));
        }
        _ => panic!("expected a 200 reply"),
    }
}

#[test]
fn length_mismatch_is_422() {
    let (reply, calls) = run(ints(&[1, 2, 3]), ints(&[4, 5]), floatadd);
    assert_eq!(reply.status(), 422);
    assert_eq!(reply.error_message(), Some("vectors must have equal length"));
    assert!(matches!(reply, Reply::LengthMismatch { a_len: 3, b_len: 2 }));
    assert_eq!(calls, 0);
}

#[test]
fn degraded_when_floatadd_dead() {
    let (reply, calls) = run(ints(&[1, 2]), ints(&[3, 4]), |_, _| DependencyReply::Unreachable);
    assert_eq!(reply.status(), 503);
    assert_eq!(dependency_of(&reply), Some("srvcs-floatadd"));
    assert_eq!(reply.error_message(), Some("dependency unavailable"));
    assert_eq!(calls, 1);
}

#[test]
fn forwards_422_from_floatadd() {
    let rejection = object(&[("error", Value::from("value is not a number"))]);
    let (reply, _) = run(
        vec![Value::from("nope"), Value::from(2)],
        ints(&[3, 4]),
        |_, _| answered(422, rejection.clone()),
    );
    assert_eq!(reply.status(), 422);
    match &reply {
        Reply::Forwarded { body, .. } => assert_eq!(body["error"], "value is not a number"),
        _ => panic!("expected a forwarded reply"),
    }
}

#[test]
fn malformed_floatadd_result_is_500() {
    let (reply, _) = run(ints(&[1, 2]), ints(&[3, 4]), |_, _| {
        answered(200, object(&[("result", Value::from("not-a-number"))]))
    });
    assert_eq!(reply.status(), 500);
    assert_eq!(dependency_of(&reply), Some("srvcs-floatadd"));
    assert_eq!(reply.error_message(), Some("dependency returned a malformed result"));
}

#[test]
fn first_failure_stops_the_calls() {
    let (reply, calls) = run(ints(&[1, 2, 3, 4]), ints(&[5, 6, 7, 8]), |a, b| {
        if a.as_i64() == Some(2) {
            DependencyReply::Unreachable
        } else {
            floatadd(a, b)
        }
    });
    assert_eq!(reply.status(), 503);
    assert_eq!(calls, 2);
}

#[test]
fn operands_are_asked_in_component_order() {
    let seen = std::cell::RefCell::new(Vec::new());
    let (reply, calls) = run(ints(&[1, 2, 3]), ints(&[10, 20, 30]), |a, b| {
        seen.borrow_mut().push((a.as_i64().unwrap(), b.as_i64().unwrap()));
        floatadd(a, b)
    });
    assert_eq!(calls, 3);
    assert_eq!(seen.into_inner(), vec![(1, 10), (2, 20), (3, 30)]);
    assert_list_close(&reply, &[11.0, 22.0, 33.0]);
}

#[test]
fn other_dependency_status_is_degraded() {
    let (reply, _) = run(ints(&[1]), ints(&[2]), |_, _| answered(500, Value::Null));
    assert_eq!(reply.status(), 503);
    assert_eq!(dependency_of(&reply), Some("srvcs-floatadd"));
}

#[test]
fn ask_maps_each_answer() {
    let sum: Result<f64, VectorReply> =
        ask(answered(200, object(&[("result", Value::from(2.5))])), "srvcs-floatadd");
    assert_eq!(sum.ok(), Some(2.5));
    let unreachable: Result<f64, VectorReply> = ask(DependencyReply::Unreachable, "dep");
    assert!(matches!(unreachable, Err(Reply::Degraded { dependency: "dep" })));
    let missing: Result<f64, VectorReply> = ask(answered(200, Value::Null), "dep");
    assert!(matches!(missing, Err(Reply::Malformed { dependency: "dep" })));
    let rejected: Result<f64, VectorReply> = ask(answered(422, Value::from(7)), "dep");
    match rejected {
        Err(Reply::Forwarded { status, body }) => {
            assert_eq!(status, 422);
            assert_eq!(body, Value::from(7));
        }
        _ => panic!("expected a forwarded reply"),
    }
    let teapot: Result<f64, VectorReply> = ask(answered(418, Value::Null), "dep");
    assert!(matches!(teapot, Err(Reply::Degraded { dependency: "dep" })));
}

#[test]
fn forwarded_status_falls_back_to_502() {
    assert_eq!(status_or_bad_gateway(422), 422);
    assert_eq!(status_or_bad_gateway(100), 100);
    assert_eq!(status_or_bad_gateway(999), 999);
    assert_eq!(status_or_bad_gateway(99), 502);
    assert_eq!(status_or_bad_gateway(1000), 502);
    let reply: VectorReply = forward(42, Value::Null);
    assert_eq!(reply.status(), 502);
    assert_eq!(reply.error_message(), None);
}

#[test]
fn openapi_documents_post_statuses() {
    let doc = ApiDoc::openapi();
    assert!(doc.paths.get("/missing").is_none());
    let root = doc.paths.get("/").unwrap();
    let get = root.get.as_ref().unwrap();
    assert_eq!(get.operation_id, "index");
    assert_eq!(get.responses.len(), 1);
    assert_eq!(get.responses[0].body, Some("Info"));
    let post = root.post.as_ref().unwrap();
    assert_eq!(post.operation_id, "evaluate");
    assert_eq!(post.request_body, Some("EvalRequest"));
    let statuses: Vec<u16> = post.responses.iter().map(|r| r.status).collect();
    assert_eq!(statuses, vec![200, 422, 500, 503]);
    assert_eq!(doc.schemas, vec!["Info", "EvalRequest", "VectorAddResponse"]);
}

#[test]
fn every_reply_status_is_documented() {
    let doc = ApiDoc::openapi();
    let post = doc.paths.get("/").unwrap().post.as_ref().unwrap();
    let documented: Vec<u16> = post.responses.iter().map(|r| r.status).collect();
    let answers: Vec<fn(&Value, &Value) -> DependencyReply<f64, Value>> = vec![
        floatadd,
        |_, _| DependencyReply::Unreachable,
        |_, _| answered(422, Value::Null),
        |_, _| answered(200, Value::Null),
        |_, _| answered(301, Value::Null),
    ];
    for answer in answers {
        let (reply, _) = run(ints(&[1, 2]), ints(&[3, 4]), answer);
        assert!(documented.contains(&reply.status()));
    }
    let (reply, _) = run(ints(&[1]), ints(&[3, 4]), floatadd);
    assert!(documented.contains(&reply.status()));
}

#[test]
fn error_bodies_are_worded_here() {
    let r: VectorReply = length_mismatch(3, 2);
    let f = r.error_fields();
    assert_eq!(f.len(), 3);
    assert_eq!(f[0].0, "error");
    assert!(matches!(f[0].1, FieldValue::Text("vectors must have equal length")));
    assert_eq!(f[1].0, "a_len");
    assert!(matches!(f[1].1, FieldValue::Count(3)));
    assert_eq!(f[2].0, "b_len");
    assert!(matches!(f[2].1, FieldValue::Count(2)));
    let d: VectorReply = degraded("srvcs-floatadd");
    let f = d.error_fields();
    assert_eq!(f.len(), 2);
    assert!(matches!(f[0].1, FieldValue::Text("dependency unavailable")));
    assert_eq!(f[1].0, "dependency");
    assert!(matches!(f[1].1, FieldValue::Text("srvcs-floatadd")));
    let m: VectorReply = malformed("srvcs-floatadd");
    let f = m.error_fields();
    assert!(matches!(f[0].1, FieldValue::Text("dependency returned a malformed result")));
    let fw: VectorReply = forward(422, Value::Null);
    assert!(fw.error_fields().is_empty());
}

#[test]
fn depends_on_lists_floatadd() {
    assert_eq!(srvcs_vectoradd::service::DEPENDS_ON, ["srvcs-floatadd"]);
    assert_eq!(index().depends_on, srvcs_vectoradd::service::DEPENDS_ON.to_vec());
}
