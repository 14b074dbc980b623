//! The decisions of `POST /`: check that the operands align, ask the
//! dependency for one component sum at a time, in order, and stop at the
//! first answer that is not a sum.
//!
//! The requests themselves go out elsewhere: a step hands back either the
//! next call to make ([`Next::Call`]) or the reply to send ([`Next::Respond`]),
//! and the dependency's answer comes back through [`Evaluation::resume`].
use vstd::prelude::*;

use crate::reply::{
    degraded, forward, length_mismatch, malformed, ok, Reply, ReplyModel, STATUS_OK,
    STATUS_UNPROCESSABLE_ENTITY,
};
use crate::service::FLOATADD;

verus! {

/// Where the dependency service can be reached.
#[derive(Clone)]
pub struct Deps {
    pub floatadd_url: String,
}

/// The body of `POST /`: two vectors that must have equal length.
pub struct EvalRequest<A> {
    pub a: Vec<A>,
    pub b: Vec<A>,
}

/// How one call to the dependency came back: not at all, or with a status,
/// the numeric `result` its body held (if any) and the body itself.
pub enum DependencyReply<R, B> {
    Unreachable,
    Answered { status: u16, result: Option<R>, body: B },
}

/// What one dependency answer means: the sum, or the reply that ends the
/// evaluation.
///
/// - unreachable, or a status other than `200` and `422`: `503`, degraded
/// - `422`: the dependency rejected the input, forwarded as it came
/// - `200` without a numeric `result`: `500`, malformed
pub open spec fn ask_model<A, R, B>(reply: DependencyReply<R, B>, dependency: Seq<char>) -> Result<
    R,
    ReplyModel<A, R, B>,
> {
    match reply {
        DependencyReply::Unreachable => Err(ReplyModel::Degraded { dependency }),
        DependencyReply::Answered { status, result, body } => {
            if status == STATUS_OK {
                match result {
                    Some(r) => Ok(r),
                    None => Err(ReplyModel::Malformed { dependency }),
                }
            } else if status == STATUS_UNPROCESSABLE_ENTITY {
                Err(ReplyModel::Forwarded { status: STATUS_UNPROCESSABLE_ENTITY, body })
            } else {
                Err(ReplyModel::Degraded { dependency })
            }
        },
    }
}

/// Maps one answer of `dependency` to its sum, or to the reply that the
/// caller should send as it is.
pub fn ask<A, R, B>(reply: DependencyReply<R, B>, dependency: &'static str) -> (outcome: Result<
    R,
    Reply<A, R, B>,
>)
    ensures
        match outcome {
            Ok(r) => ask_model::<A, R, B>(reply, dependency@) == Ok::<R, ReplyModel<A, R, B>>(r),
            Err(e) => ask_model::<A, R, B>(reply, dependency@) == Err::<R, ReplyModel<A, R, B>>(e@),
        },
        reply is Unreachable ==> (outcome matches Err(Reply::Degraded { dependency: d })
            && d@ == dependency@),
        (reply matches DependencyReply::Answered { status, .. } && status != 200 && status != 422)
            ==> (outcome matches Err(Reply::Degraded { dependency: d }) && d@ == dependency@),
        (reply matches DependencyReply::Answered { status, result, .. } && status == 200
            && result is None) <==> outcome matches Err(Reply::Malformed { .. }),
        outcome matches Err(Reply::Malformed { dependency: d }) ==> d@ == dependency@,
        (reply matches DependencyReply::Answered { status, result, .. } && status == 200
            && result is Some) <==> outcome is Ok,
        outcome matches Ok(r) ==> (reply matches DependencyReply::Answered { result, .. } && result
            == Some(r)),
        (reply matches DependencyReply::Answered { status, .. } && status == 422) <==> outcome matches Err(Reply::Forwarded { .. }),
        outcome matches Err(Reply::Forwarded { status, body }) ==> (status == 422
            && (reply matches DependencyReply::Answered { body: b, .. } && b == body)),
        !(outcome matches Err(Reply::Evaluated(_))),
        !(outcome matches Err(Reply::LengthMismatch { .. })),
{
    match reply {
        DependencyReply::Unreachable => Err(degraded(dependency)),
        DependencyReply::Answered { status, result, body } => {
            if status == STATUS_OK {
                match result {
                    Some(r) => Ok(r),
                    None => Err(malformed(dependency)),
                }
            } else if status == STATUS_UNPROCESSABLE_ENTITY {
                Err(forward(status, body))
            } else {
                Err(degraded(dependency))
            }
        },
    }
}

/// An evaluation that waits for the sum of one more component.
///
/// Both operands have the same length, and fewer sums are known than there
/// are components.
pub struct Evaluation<A, R> {
    a: Vec<A>,
    b: Vec<A>,
    result: Vec<R>,
}

/// The mathematical value of an [`Evaluation`]: both operands, and the sums
/// of the components so far, in order.
pub struct Progress<A, R> {
    pub a: Seq<A>,
    pub b: Seq<A>,
    pub result: Seq<R>,
}

impl<A, R> View for Evaluation<A, R> {
    type V = Progress<A, R>;

    closed spec fn view(&self) -> Progress<A, R> {
        Progress { a: self.a@, b: self.b@, result: self.result@ }
    }
}

/// What to do next: make a call, or send a reply.
pub enum Next<A, R, B> {
    Call(Evaluation<A, R>),
    Respond(Reply<A, R, B>),
}

/// The mathematical value of a [`Next`].
pub enum NextModel<A, R, B> {
    Call(Progress<A, R>),
    Respond(ReplyModel<A, R, B>),
}

impl<A, R, B> View for Next<A, R, B> {
    type V = NextModel<A, R, B>;

    open spec fn view(&self) -> NextModel<A, R, B> {
        match self {
            Next::Call(e) => NextModel::Call(e@),
            Next::Respond(r) => NextModel::Respond(r@),
        }
    }
}

/// With `p.result` known, either all sums are there and the answer is `200`,
/// or the next component is to be asked for.
pub open spec fn proceed_model<A, R, B>(p: Progress<A, R>) -> NextModel<A, R, B> {
    if p.result.len() >= p.a.len() {
        NextModel::Respond(ReplyModel::Evaluated { a: p.a, b: p.b, result: p.result })
    } else {
        NextModel::Call(p)
    }
}

/// The first step: operands of different lengths are answered `422` before
/// any call; otherwise the evaluation starts with no sums.
pub open spec fn begin_model<A, R, B>(a: Seq<A>, b: Seq<A>) -> NextModel<A, R, B> {
    if a.len() != b.len() {
        NextModel::Respond(ReplyModel::LengthMismatch { a_len: a.len(), b_len: b.len() })
    } else {
        proceed_model(Progress { a, b, result: Seq::empty() })
    }
}

/// One later step: the dependency's answer for the pending component either
/// adds its sum, or ends the evaluation with the reply it maps to.
pub open spec fn resume_model<A, R, B>(p: Progress<A, R>, reply: DependencyReply<R, B>) -> NextModel<
    A,
    R,
    B,
> {
    match ask_model::<A, R, B>(reply, FLOATADD@) {
        Ok(r) => proceed_model(Progress { a: p.a, b: p.b, result: p.result.push(r) }),
        Err(e) => NextModel::Respond(e),
    }
}

impl<A, R> Evaluation<A, R> {
    #[verifier::type_invariant]
    spec fn pending(self) -> bool {
        &&& self.a.len() == self.b.len()
        &&& self.result.len() < self.a.len()
    }

    fn proceed<B>(a: Vec<A>, b: Vec<A>, result: Vec<R>) -> (next: Next<A, R, B>)
        requires
            a.len() == b.len(),
            result.len() <= a.len(),
        ensures
            next@ == proceed_model::<A, R, B>(Progress { a: a@, b: b@, result: result@ }),
    {
        if result.len() == a.len() {
            Next::Respond(ok(a, b, result))
        } else {
            Next::Call(Evaluation { a, b, result })
        }
    }

    /// Starts evaluating `request`: `422` at once where the two vectors
    /// differ in length, else the call for the first component (or `200`
    /// with no sums, for two empty vectors).
    pub fn begin<B>(request: EvalRequest<A>) -> (next: Next<A, R, B>)
        ensures
            next@ == begin_model::<A, R, B>(request.a@, request.b@),
    {
        let EvalRequest { a, b } = request;
        if a.len() != b.len() {
            let a_len = a.len();
            let b_len = b.len();
            Next::Respond(length_mismatch(a_len, b_len))
        } else {
            Self::proceed(a, b, Vec::new())
        }
    }

    /// The index of the component whose sum is asked for next.
    pub fn position(&self) -> (index: usize)
        ensures
            index == self@.result.len(),
            index < self@.a.len(),
            self@.a.len() == self@.b.len(),
    {
        proof {
            use_type_invariant(self);
        }
        self.result.len()
    }

    /// The two operands of the pending call: the components of `a` and `b`
    /// at the current position.
    pub fn operands(&self) -> (pair: (&A, &A))
        ensures
            self@.result.len() < self@.a.len(),
            self@.a.len() == self@.b.len(),
            *pair.0 == self@.a[self@.result.len() as int],
            *pair.1 == self@.b[self@.result.len() as int],
    {
        proof {
            use_type_invariant(self);
        }
        let i = self.result.len();
        (&self.a[i], &self.b[i])
    }

    /// Takes the dependency's answer for the pending component.
    pub fn resume<B>(self, reply: DependencyReply<R, B>) -> (next: Next<A, R, B>)
        ensures
            next@ == resume_model::<A, R, B>(self@, reply),
    {
        proof {
            use_type_invariant(&self);
        }
        let Evaluation { a, b, mut result } = self;
        match ask(reply, FLOATADD) {
            Ok(r) => {
                result.push(r);
                Self::proceed(a, b, result)
            },
            Err(e) => Next::Respond(e),
        }
    }
}

} // verus!
