//! The OpenAPI document of the service's routes: which operations `/`
//! offers, what each takes, and which statuses each can answer.
use vstd::prelude::*;

verus! {

/// One documented answer of an operation.
pub struct ResponseDoc {
    pub status: u16,
    pub description: &'static str,
    /// The schema of the body, where one is documented.
    pub body: Option<&'static str>,
}

/// One documented operation.
pub struct Operation {
    pub operation_id: &'static str,
    /// The schema of the request body, where there is one.
    pub request_body: Option<&'static str>,
    pub responses: Vec<ResponseDoc>,
}

/// The operations of one path.
pub struct PathItem {
    pub get: Option<Operation>,
    pub post: Option<Operation>,
}

/// Every documented path, with its operations.
pub struct Paths {
    pub paths: Vec<(String, PathItem)>,
}

/// The whole document: the paths and the names of the schemas it refers to.
pub struct OpenApiDoc {
    pub paths: Paths,
    pub schemas: Vec<&'static str>,
}

/// The service's API, as the OpenAPI document describes it.
pub struct ApiDoc;

/// The statuses documented for `POST /`, in order.
pub open spec fn documented_post_statuses() -> Seq<u16> {
    seq![200u16, 422u16, 500u16, 503u16]
}

pub open spec fn response_statuses(op: Operation) -> Seq<u16> {
    op.responses@.map_values(|r: ResponseDoc| r.status)
}

/// `GET /`: the service identity, answered `200` with an `Info` body.
pub open spec fn documents_index(op: Operation) -> bool {
    &&& op.operation_id@ == "index"@
    &&& op.request_body is None
    &&& response_statuses(op) == seq![200u16]
    &&& op.responses@[0].body matches Some(s) && s@ == "Info"@
    &&& op.responses@[0].description@ == ""@
}

/// `POST /`: an `EvalRequest` body, answered `200` with a
/// `VectorAddResponse`, or `422`, `500` or `503`.
pub open spec fn documents_evaluate(op: Operation) -> bool {
    &&& op.operation_id@ == "evaluate"@
    &&& op.request_body matches Some(s) && s@ == "EvalRequest"@
    &&& response_statuses(op) == documented_post_statuses()
    &&& op.responses@[0].body matches Some(s) && s@ == "VectorAddResponse"@
    &&& op.responses@[0].description@ == ""@
    &&& op.responses@[1].description@
        == "vector length mismatch, or a dependency rejected a component (forwarded)"@
    &&& op.responses@[2].description@ == "a dependency returned a malformed result"@
    &&& op.responses@[3].description@ == "a dependency is unavailable"@
    &&& op.responses@[1].body is None
    &&& op.responses@[2].body is None
    &&& op.responses@[3].body is None
}

/// The document: the one path `/` with its `GET` and `POST`, and the
/// schemas `Info`, `EvalRequest` and `VectorAddResponse`.
pub open spec fn documents_service(doc: OpenApiDoc) -> bool {
    &&& doc.paths.paths@.len() == 1
    &&& doc.paths.paths@[0].0@ == "/"@
    &&& doc.paths.paths@[0].1.get matches Some(op) && documents_index(op)
    &&& doc.paths.paths@[0].1.post matches Some(op) && documents_evaluate(op)
    &&& doc.schemas@.len() == 3
    &&& doc.schemas@[0]@ == "Info"@
    &&& doc.schemas@[1]@ == "EvalRequest"@
    &&& doc.schemas@[2]@ == "VectorAddResponse"@
}

impl Paths {
    /// The operations of `path`, if the document lists it: those of the
    /// first entry with that path.
    pub fn get(&self, path: &str) -> (item: Option<&PathItem>)
        ensures
            match item {
                Some(it) => exists|i: int|
                    0 <= i < self.paths@.len() && (#[trigger] self.paths@[i]).0@ == path@
                        && *it == self.paths@[i].1 && forall|j: int|
                        0 <= j < i ==> (#[trigger] self.paths@[j]).0@ != path@,
                None => forall|i: int|
                    0 <= i < self.paths@.len() ==> (#[trigger] self.paths@[i]).0@ != path@,
            },
    {
        let wanted: String = path.to_owned();
        let mut i: usize = 0;
        while i < self.paths.len()
            invariant
                i <= self.paths@.len(),
                wanted@ == path@,
                forall|j: int| 0 <= j < i ==> (#[trigger] self.paths@[j]).0@ != path@,
            decreases self.paths@.len() - i,
        {
            if self.paths[i].0.eq(&wanted) {
                return Some(&self.paths[i].1);
            }
            i = i + 1;
        }
        None
    }
}

fn response(status: u16, description: &'static str, body: Option<&'static str>) -> (r: ResponseDoc)
    ensures
        r.status == status,
        r.description == description,
        r.body == body,
{
    ResponseDoc { status, description, body }
}

impl ApiDoc {
    /// The OpenAPI document of the service.
    pub fn openapi() -> (doc: OpenApiDoc)
        ensures
            documents_service(doc),
    {
        proof {
            reveal_strlit("/");
            reveal_strlit("index");
            reveal_strlit("evaluate");
            reveal_strlit("Info");
            reveal_strlit("EvalRequest");
            reveal_strlit("VectorAddResponse");
            reveal_strlit("");
            reveal_strlit("vector length mismatch, or a dependency rejected a component (forwarded)");
            reveal_strlit("a dependency returned a malformed result");
            reveal_strlit("a dependency is unavailable");
        }
        let mut index_responses: Vec<ResponseDoc> = Vec::new();
        index_responses.push(response(200, "", Some("Info")));
        let index = Operation { operation_id: "index", request_body: None, responses: index_responses };

        let mut evaluate_responses: Vec<ResponseDoc> = Vec::new();
        evaluate_responses.push(response(200, "", Some("VectorAddResponse")));
        evaluate_responses.push(
            response(
                422,
                "vector length mismatch, or a dependency rejected a component (forwarded)",
                None,
            ),
        );
        evaluate_responses.push(response(500, "a dependency returned a malformed result", None));
        evaluate_responses.push(response(503, "a dependency is unavailable", None));
        let evaluate = Operation {
            operation_id: "evaluate",
            request_body: Some("EvalRequest"),
            responses: evaluate_responses,
        };
        assert(response_statuses(index) =~= seq![200u16]);
        assert(response_statuses(evaluate) =~= documented_post_statuses());

        let mut paths: Vec<(String, PathItem)> = Vec::new();
        paths.push(("/".to_owned(), PathItem { get: Some(index), post: Some(evaluate) }));

        let mut schemas: Vec<&'static str> = Vec::new();
        schemas.push("Info");
        schemas.push("EvalRequest");
        schemas.push("VectorAddResponse");
        OpenApiDoc { paths: Paths { paths }, schemas }
    }
}

} // verus!
