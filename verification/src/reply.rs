//! What `POST /` answers: the sum on success, or one of the failures, each
//! with its HTTP status and the message the body carries.
use vstd::prelude::*;

verus! {

/// The answer to a successful evaluation: both operands echoed back, and the
/// component-wise sums in order.
pub struct VectorAddResponse<A, R> {
    pub a: Vec<A>,
    pub b: Vec<A>,
    pub result: Vec<R>,
}

/// Every answer `POST /` can give.
///
/// `A` is an operand component, `R` a sum that the dependency computed, `B`
/// a body that the dependency sent and that is forwarded as it came.
pub enum Reply<A, R, B> {
    /// `200`: the sums.
    Evaluated(VectorAddResponse<A, R>),
    /// `422`: the two vectors cannot be aligned component-wise.
    LengthMismatch { a_len: usize, b_len: usize },
    /// `503`: the dependency could not be reached, or answered unexpectedly.
    Degraded { dependency: &'static str },
    /// The dependency's own status and body, passed on.
    Forwarded { status: u16, body: B },
    /// `500`: the dependency answered `200` without a numeric `result`.
    Malformed { dependency: &'static str },
}

/// The mathematical value of a [`Reply`]: vectors as sequences, names as
/// character sequences.
pub enum ReplyModel<A, R, B> {
    Evaluated { a: Seq<A>, b: Seq<A>, result: Seq<R> },
    LengthMismatch { a_len: nat, b_len: nat },
    Degraded { dependency: Seq<char> },
    Forwarded { status: u16, body: B },
    Malformed { dependency: Seq<char> },
}

pub const STATUS_OK: u16 = 200;

pub const STATUS_UNPROCESSABLE_ENTITY: u16 = 422;

pub const STATUS_INTERNAL_SERVER_ERROR: u16 = 500;

pub const STATUS_BAD_GATEWAY: u16 = 502;

pub const STATUS_SERVICE_UNAVAILABLE: u16 = 503;

/// A number HTTP accepts as a status code: three digits, from 100 to 999.
pub open spec fn is_status_code(status: u16) -> bool {
    100 <= status <= 999
}

/// The status under which a forwarded status goes out: itself where it is a
/// status code, `502` where it is not.
pub open spec fn forwarded_status(status: u16) -> u16 {
    if is_status_code(status) {
        status
    } else {
        STATUS_BAD_GATEWAY
    }
}

pub open spec fn length_mismatch_message() -> Seq<char> {
    "vectors must have equal length"@
}

pub open spec fn unavailable_message() -> Seq<char> {
    "dependency unavailable"@
}

pub open spec fn malformed_message() -> Seq<char> {
    "dependency returned a malformed result"@
}

/// A value of the body of a reply that this service words itself.
pub enum FieldValue {
    Text(&'static str),
    Count(usize),
}

/// The mathematical value of a [`FieldValue`].
pub enum FieldValueModel {
    Text(Seq<char>),
    Count(nat),
}

impl View for FieldValue {
    type V = FieldValueModel;

    open spec fn view(&self) -> FieldValueModel {
        match self {
            FieldValue::Text(t) => FieldValueModel::Text(t@),
            FieldValue::Count(n) => FieldValueModel::Count(*n as nat),
        }
    }
}

/// The keys and values of a body, as mathematical values.
pub open spec fn fields_view(fields: Seq<(&'static str, FieldValue)>) -> Seq<(Seq<char>, FieldValueModel)> {
    fields.map_values(|f: (&'static str, FieldValue)| (f.0@, f.1@))
}

impl<A, R, B> ReplyModel<A, R, B> {
    /// The HTTP status under which the reply is sent.
    pub open spec fn status(self) -> u16 {
        match self {
            ReplyModel::Evaluated { .. } => STATUS_OK,
            ReplyModel::LengthMismatch { .. } => STATUS_UNPROCESSABLE_ENTITY,
            ReplyModel::Degraded { .. } => STATUS_SERVICE_UNAVAILABLE,
            ReplyModel::Forwarded { status, .. } => forwarded_status(status),
            ReplyModel::Malformed { .. } => STATUS_INTERNAL_SERVER_ERROR,
        }
    }

    /// The `error` text of the body, for the failures that this service
    /// words itself.
    pub open spec fn error_message(self) -> Option<Seq<char>> {
        match self {
            ReplyModel::LengthMismatch { .. } => Some(length_mismatch_message()),
            ReplyModel::Degraded { .. } => Some(unavailable_message()),
            ReplyModel::Malformed { .. } => Some(malformed_message()),
            _ => None,
        }
    }

    /// The body, key by key in order, of the failures that this service
    /// words itself; empty for the sums and for a forwarded body.
    pub open spec fn error_fields(self) -> Seq<(Seq<char>, FieldValueModel)> {
        match self {
            ReplyModel::LengthMismatch { a_len, b_len } => seq![
                ("error"@, FieldValueModel::Text(length_mismatch_message())),
                ("a_len"@, FieldValueModel::Count(a_len)),
                ("b_len"@, FieldValueModel::Count(b_len)),
            ],
            ReplyModel::Degraded { dependency } => seq![
                ("error"@, FieldValueModel::Text(unavailable_message())),
                ("dependency"@, FieldValueModel::Text(dependency)),
            ],
            ReplyModel::Malformed { dependency } => seq![
                ("error"@, FieldValueModel::Text(malformed_message())),
                ("dependency"@, FieldValueModel::Text(dependency)),
            ],
            _ => seq![],
        }
    }
}

impl<A, R, B> View for Reply<A, R, B> {
    type V = ReplyModel<A, R, B>;

    open spec fn view(&self) -> ReplyModel<A, R, B> {
        match self {
            Reply::Evaluated(r) => ReplyModel::Evaluated { a: r.a@, b: r.b@, result: r.result@ },
            Reply::LengthMismatch { a_len, b_len } => ReplyModel::LengthMismatch {
                a_len: *a_len as nat,
                b_len: *b_len as nat,
            },
            Reply::Degraded { dependency } => ReplyModel::Degraded { dependency: dependency@ },
            Reply::Forwarded { status, body } => ReplyModel::Forwarded {
                status: *status,
                body: *body,
            },
            Reply::Malformed { dependency } => ReplyModel::Malformed { dependency: dependency@ },
        }
    }
}

/// `StatusCode::from_u16(status)`, falling back to `502` where `status` is
/// no status code.
pub fn status_or_bad_gateway(status: u16) -> (code: u16)
    ensures
        code == forwarded_status(status),
{
    if 100 <= status && status <= 999 {
        status
    } else {
        STATUS_BAD_GATEWAY
    }
}

impl<A, R, B> Reply<A, R, B> {
    /// The HTTP status of this reply.
    pub fn status(&self) -> (code: u16)
        ensures
            code == self@.status(),
    {
        match self {
            Reply::Evaluated(_) => STATUS_OK,
            Reply::LengthMismatch { .. } => STATUS_UNPROCESSABLE_ENTITY,
            Reply::Degraded { .. } => STATUS_SERVICE_UNAVAILABLE,
            Reply::Forwarded { status, .. } => status_or_bad_gateway(*status),
            Reply::Malformed { .. } => STATUS_INTERNAL_SERVER_ERROR,
        }
    }

    /// The `error` text of this reply's body, where this service words it.
    pub fn error_message(&self) -> (message: Option<&'static str>)
        ensures
            match message {
                Some(m) => self@.error_message() == Some(m@),
                None => self@.error_message() is None,
            },
    {
        proof {
            reveal_strlit("vectors must have equal length");
            reveal_strlit("dependency unavailable");
            reveal_strlit("dependency returned a malformed result");
        }
        match self {
            Reply::LengthMismatch { .. } => Some("vectors must have equal length"),
            Reply::Degraded { .. } => Some("dependency unavailable"),
            Reply::Malformed { .. } => Some("dependency returned a malformed result"),
            _ => None,
        }
    }
}

impl<A, R, B> Reply<A, R, B> {
    /// The body of this reply where this service words it: the `error`
    /// text, then both lengths or the dependency's name.
    pub fn error_fields(&self) -> (fields: Vec<(&'static str, FieldValue)>)
        ensures
            fields_view(fields@) == self@.error_fields(),
            self matches Reply::LengthMismatch { a_len, b_len } ==> {
                &&& fields@.len() == 3
                &&& fields@[0].0@ == "error"@
                &&& fields@[0].1 matches FieldValue::Text(t) && t@ == "vectors must have equal length"@
                &&& fields@[1].0@ == "a_len"@
                &&& fields@[1].1 == FieldValue::Count(*a_len)
                &&& fields@[2].0@ == "b_len"@
                &&& fields@[2].1 == FieldValue::Count(*b_len)
            },
            self matches Reply::Degraded { dependency } ==> {
                &&& fields@.len() == 2
                &&& fields@[0].0@ == "error"@
                &&& fields@[0].1 matches FieldValue::Text(t) && t@ == "dependency unavailable"@
                &&& fields@[1].0@ == "dependency"@
                &&& fields@[1].1 matches FieldValue::Text(t) && t@ == dependency@
            },
            self matches Reply::Malformed { dependency } ==> {
                &&& fields@.len() == 2
                &&& fields@[0].0@ == "error"@
                &&& fields@[0].1 matches FieldValue::Text(t) && t@
                    == "dependency returned a malformed result"@
                &&& fields@[1].0@ == "dependency"@
                &&& fields@[1].1 matches FieldValue::Text(t) && t@ == dependency@
            },
            (self is Evaluated || self is Forwarded) ==> fields@.len() == 0,
    {
        proof {
            reveal_strlit("error");
            reveal_strlit("a_len");
            reveal_strlit("b_len");
            reveal_strlit("dependency");
            reveal_strlit("vectors must have equal length");
            reveal_strlit("dependency unavailable");
            reveal_strlit("dependency returned a malformed result");
        }
        let mut fields: Vec<(&'static str, FieldValue)> = Vec::new();
        match self {
            Reply::LengthMismatch { a_len, b_len } => {
                fields.push(("error", FieldValue::Text("vectors must have equal length")));
                fields.push(("a_len", FieldValue::Count(*a_len)));
                fields.push(("b_len", FieldValue::Count(*b_len)));
            },
            Reply::Degraded { dependency } => {
                fields.push(("error", FieldValue::Text("dependency unavailable")));
                fields.push(("dependency", FieldValue::Text(*dependency)));
            },
            Reply::Malformed { dependency } => {
                fields.push(("error", FieldValue::Text("dependency returned a malformed result")));
                fields.push(("dependency", FieldValue::Text(*dependency)));
            },
            _ => {},
        }
        assert(fields_view(fields@) =~= self@.error_fields());
        fields
    }
}

/// The `200` reply carrying both operands and their sums.
pub fn ok<A, R, B>(a: Vec<A>, b: Vec<A>, result: Vec<R>) -> (reply: Reply<A, R, B>)
    ensures
        reply@ == (ReplyModel::<A, R, B>::Evaluated { a: a@, b: b@, result: result@ }),
        reply@.status() == STATUS_OK,
{
    Reply::Evaluated(VectorAddResponse { a, b, result })
}

/// The `503` reply naming the dependency that is unavailable.
pub fn degraded<A, R, B>(dependency: &'static str) -> (reply: Reply<A, R, B>)
    ensures
        reply@ == (ReplyModel::<A, R, B>::Degraded { dependency: dependency@ }),
        reply@.status() == STATUS_SERVICE_UNAVAILABLE,
{
    Reply::Degraded { dependency }
}

/// The dependency's status and body, passed on as they came.
pub fn forward<A, R, B>(status: u16, body: B) -> (reply: Reply<A, R, B>)
    ensures
        reply@ == (ReplyModel::<A, R, B>::Forwarded { status, body }),
        reply@.status() == forwarded_status(status),
{
    Reply::Forwarded { status, body }
}

/// The `500` reply: the named dependency answered `200` without a numeric
/// `result`.
pub fn malformed<A, R, B>(dependency: &'static str) -> (reply: Reply<A, R, B>)
    ensures
        reply@ == (ReplyModel::<A, R, B>::Malformed { dependency: dependency@ }),
        reply@.status() == STATUS_INTERNAL_SERVER_ERROR,
{
    Reply::Malformed { dependency }
}

/// The `422` reply for operands of different lengths, with both lengths.
pub fn length_mismatch<A, R, B>(a_len: usize, b_len: usize) -> (reply: Reply<A, R, B>)
    ensures
        reply@ == (ReplyModel::<A, R, B>::LengthMismatch { a_len: a_len as nat, b_len: b_len as nat }),
        reply@.status() == STATUS_UNPROCESSABLE_ENTITY,
{
    Reply::LengthMismatch { a_len, b_len }
}

} // verus!
