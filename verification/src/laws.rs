//! What a whole evaluation answers, stated over the sequence of answers the
//! dependency gives, one per call.
use vstd::prelude::*;

use crate::evaluation::{
    ask_model, begin_model, proceed_model, resume_model, DependencyReply, NextModel, Progress,
};
use crate::openapi::documented_post_statuses;
use crate::reply::{FieldValueModel, ReplyModel};
use crate::service::FLOATADD;

verus! {

/// Runs the steps from `next` on, feeding the dependency's answers in order,
/// one per call, until a reply is due or the answers run out.
pub open spec fn drive<A, R, B>(next: NextModel<A, R, B>, replies: Seq<DependencyReply<R, B>>) -> NextModel<
    A,
    R,
    B,
>
    decreases replies.len(),
{
    match next {
        NextModel::Call(p) => {
            if replies.len() == 0 {
                next
            } else {
                drive(resume_model::<A, R, B>(p, replies[0]), replies.drop_first())
            }
        },
        NextModel::Respond(_) => next,
    }
}

/// Each of the first `k` answers is a sum.
pub open spec fn all_sums<A, R, B>(replies: Seq<DependencyReply<R, B>>, k: int) -> bool {
    forall|i: int| 0 <= i < k ==> (#[trigger] ask_model::<A, R, B>(replies[i], FLOATADD@)) is Ok
}

/// The sums that the first `k` answers carry.
pub open spec fn sums<A, R, B>(replies: Seq<DependencyReply<R, B>>, k: int) -> Seq<R> {
    Seq::new(k as nat, |i: int| ask_model::<A, R, B>(replies[i], FLOATADD@)->Ok_0)
}

proof fn lemma_drive_sums<A, R, B>(p: Progress<A, R>, replies: Seq<DependencyReply<R, B>>)
    requires
        p.a.len() == p.b.len(),
        p.result.len() + replies.len() <= p.a.len(),
        all_sums::<A, R, B>(replies, replies.len() as int),
    ensures
        drive(proceed_model::<A, R, B>(p), replies) == proceed_model::<A, R, B>(
            Progress { a: p.a, b: p.b, result: p.result + sums::<A, R, B>(replies, replies.len() as int) },
        ),
    decreases replies.len(),
{
    let all = sums::<A, R, B>(replies, replies.len() as int);
    if replies.len() == 0 {
        assert(p.result + all =~= p.result);
    } else {
        let r0 = ask_model::<A, R, B>(replies[0], FLOATADD@)->Ok_0;
        assert(ask_model::<A, R, B>(replies[0], FLOATADD@) is Ok);
        let q = Progress { a: p.a, b: p.b, result: p.result.push(r0) };
        let rest = replies.drop_first();
        assert forall|i: int| 0 <= i < rest.len() implies (#[trigger] ask_model::<A, R, B>(
            rest[i],
            FLOATADD@,
        )) is Ok by {
            assert(rest[i] == replies[i + 1]);
            assert(ask_model::<A, R, B>(replies[i + 1], FLOATADD@) is Ok);
        }
        lemma_drive_sums::<A, R, B>(q, rest);
        assert(q.result + sums::<A, R, B>(rest, rest.len() as int) =~= p.result + all);
    }
}

/// Answers fed in two batches give what they give fed at once: an
/// evaluation that pauses between calls goes on as if it had not paused, and
/// once a reply is due, later answers change nothing.
pub proof fn law_drive_in_batches<A, R, B>(
    next: NextModel<A, R, B>,
    s1: Seq<DependencyReply<R, B>>,
    s2: Seq<DependencyReply<R, B>>,
)
    ensures
        drive(next, s1 + s2) == drive(drive(next, s1), s2),
    decreases s1.len(),
{
    match next {
        NextModel::Call(p) => {
            if s1.len() == 0 {
                assert(s1 + s2 =~= s2);
            } else {
                assert((s1 + s2).drop_first() =~= s1.drop_first() + s2);
                assert((s1 + s2)[0] == s1[0]);
                law_drive_in_batches::<A, R, B>(
                    resume_model::<A, R, B>(p, s1[0]),
                    s1.drop_first(),
                    s2,
                );
            }
        },
        NextModel::Respond(_) => {},
    }
}

/// The `k`-th call goes out after `k` sums came back, with the operands'
/// components at `k`: while every answer so far is a sum, the evaluation of
/// two equal-length vectors waits on component `k` with the first `k` sums.
pub proof fn law_sums_accumulate_in_order<A, R, B>(
    a: Seq<A>,
    b: Seq<A>,
    replies: Seq<DependencyReply<R, B>>,
    k: int,
)
    requires
        a.len() == b.len(),
        0 <= k < a.len(),
        k <= replies.len(),
        all_sums::<A, R, B>(replies, k),
    ensures
        drive(begin_model::<A, R, B>(a, b), replies.take(k)) == NextModel::<A, R, B>::Call(
            Progress { a, b, result: sums::<A, R, B>(replies, k) },
        ),
{
    let prefix = replies.take(k);
    assert forall|i: int| 0 <= i < prefix.len() implies (#[trigger] ask_model::<A, R, B>(
        prefix[i],
        FLOATADD@,
    )) is Ok by {
        assert(prefix[i] == replies[i]);
        assert(ask_model::<A, R, B>(replies[i], FLOATADD@) is Ok);
    }
    let p0 = Progress { a, b, result: Seq::<R>::empty() };
    lemma_drive_sums::<A, R, B>(p0, prefix);
    assert(p0.result + sums::<A, R, B>(prefix, prefix.len() as int) =~= sums::<A, R, B>(replies, k));
}

/// Vector addition: where the dependency answers each of the `n` calls
/// with a sum, the reply is `200` with both operands echoed unchanged and
/// the `n` sums in component order.
pub proof fn law_all_sums_give_the_sum_vector<A, R, B>(
    a: Seq<A>,
    b: Seq<A>,
    replies: Seq<DependencyReply<R, B>>,
)
    requires
        a.len() == b.len(),
        replies.len() == a.len(),
        all_sums::<A, R, B>(replies, replies.len() as int),
    ensures
        drive(begin_model::<A, R, B>(a, b), replies) == NextModel::<A, R, B>::Respond(
            ReplyModel::Evaluated { a, b, result: sums::<A, R, B>(replies, a.len() as int) },
        ),
        sums::<A, R, B>(replies, a.len() as int).len() == a.len(),
{
    let p0 = Progress { a, b, result: Seq::<R>::empty() };
    lemma_drive_sums::<A, R, B>(p0, replies);
    assert(p0.result + sums::<A, R, B>(replies, replies.len() as int) =~= sums::<A, R, B>(
        replies,
        a.len() as int,
    ));
}

/// The first answer that is not a sum decides the reply: it is what that
/// answer maps to, and no later call is made.
pub proof fn law_first_failure_decides<A, R, B>(
    a: Seq<A>,
    b: Seq<A>,
    replies: Seq<DependencyReply<R, B>>,
    k: int,
)
    requires
        a.len() == b.len(),
        0 <= k < a.len(),
        k < replies.len(),
        all_sums::<A, R, B>(replies, k),
        ask_model::<A, R, B>(replies[k], FLOATADD@) is Err,
    ensures
        drive(begin_model::<A, R, B>(a, b), replies) == NextModel::<A, R, B>::Respond(
            ask_model::<A, R, B>(replies[k], FLOATADD@)->Err_0,
        ),
{
    law_sums_accumulate_in_order::<A, R, B>(a, b, replies, k);
    let s1 = replies.take(k);
    let s2 = replies.skip(k);
    assert(s1 + s2 =~= replies);
    law_drive_in_batches::<A, R, B>(begin_model::<A, R, B>(a, b), s1, s2);
    assert(s2[0] == replies[k]);
    let e = ask_model::<A, R, B>(replies[k], FLOATADD@)->Err_0;
    assert(drive(NextModel::<A, R, B>::Respond(e), s2.drop_first()) == NextModel::<A, R, B>::Respond(
        e,
    ));
}

/// Operands of different lengths are answered `422` with both lengths, and
/// the dependency is never called.
pub proof fn law_mismatch_calls_nothing<A, R, B>(
    a: Seq<A>,
    b: Seq<A>,
    replies: Seq<DependencyReply<R, B>>,
)
    requires
        a.len() != b.len(),
    ensures
        drive(begin_model::<A, R, B>(a, b), replies) == NextModel::<A, R, B>::Respond(
            ReplyModel::LengthMismatch { a_len: a.len(), b_len: b.len() },
        ),
{
}

/// An unreachable dependency means the dependency is unavailable: `503`,
/// naming it.
pub proof fn law_unreachable_is_degraded<A, R, B>(dependency: Seq<char>)
    ensures
        ask_model::<A, R, B>(DependencyReply::Unreachable, dependency) == Err::<
            R,
            ReplyModel<A, R, B>,
        >(ReplyModel::Degraded { dependency }),
{
}

/// An answer with any status but `200` and `422` is unexpected: the
/// dependency counts as unavailable, `503`, naming it, whatever the body
/// says (also where the body names another service).
pub proof fn law_unexpected_status_is_degraded<A, R, B>(
    status: u16,
    result: Option<R>,
    body: B,
    dependency: Seq<char>,
)
    requires
        status != 200,
        status != 422,
    ensures
        ask_model::<A, R, B>(DependencyReply::Answered { status, result, body }, dependency) == Err::<
            R,
            ReplyModel<A, R, B>,
        >(ReplyModel::Degraded { dependency }),
{
}

/// A `422` answer is the dependency rejecting the input: its body goes out
/// as it came, under `422`.
pub proof fn law_rejection_is_forwarded<A, R, B>(result: Option<R>, body: B, dependency: Seq<char>)
    ensures
        ask_model::<A, R, B>(DependencyReply::Answered { status: 422, result, body }, dependency)
            == Err::<R, ReplyModel<A, R, B>>(ReplyModel::Forwarded { status: 422, body }),
{
}

/// A `200` answer with a numeric result is that sum; one without is the
/// only malformed answer, `500`, naming the dependency.
pub proof fn law_ok_answer_is_sum_or_malformed<A, R, B>(
    result: Option<R>,
    body: B,
    dependency: Seq<char>,
)
    ensures
        result matches Some(r) ==> ask_model::<A, R, B>(
            DependencyReply::Answered { status: 200, result, body },
            dependency,
        ) == Ok::<R, ReplyModel<A, R, B>>(r),
        result is None ==> ask_model::<A, R, B>(
            DependencyReply::Answered { status: 200, result, body },
            dependency,
        ) == Err::<R, ReplyModel<A, R, B>>(ReplyModel::Malformed { dependency }),
{
}

/// Only a `200` answer without a numeric result is malformed, and only a
/// `200` answer with one is a sum.
pub proof fn law_malformed_only_from_ok_without_number<A, R, B>(
    reply: DependencyReply<R, B>,
    dependency: Seq<char>,
)
    ensures
        ask_model::<A, R, B>(reply, dependency) is Err && ask_model::<A, R, B>(reply, dependency)->Err_0
            is Malformed <==> (reply matches DependencyReply::Answered { status, result, .. }
            && status == 200 && result is None),
        ask_model::<A, R, B>(reply, dependency) is Ok <==> (
        reply matches DependencyReply::Answered { status, result, .. } && status == 200
            && result is Some),
{
}

/// A dependency that answers a call of `POST /` with neither `200` nor
/// `422` makes the reply `503` with the body `{"error": "dependency
/// unavailable", "dependency": "srvcs-floatadd"}`, and no further call.
pub proof fn law_unexpected_answer_replies_503<A, R, B>(
    a: Seq<A>,
    b: Seq<A>,
    replies: Seq<DependencyReply<R, B>>,
    k: int,
)
    requires
        a.len() == b.len(),
        0 <= k < a.len(),
        k < replies.len(),
        all_sums::<A, R, B>(replies, k),
        replies[k] is Unreachable || (replies[k] matches DependencyReply::Answered { status, .. }
            && status != 200 && status != 422),
    ensures
        drive(begin_model::<A, R, B>(a, b), replies) == NextModel::<A, R, B>::Respond(
            ReplyModel::Degraded { dependency: "srvcs-floatadd"@ },
        ),
        (ReplyModel::<A, R, B>::Degraded { dependency: "srvcs-floatadd"@ }).status() == 503,
        (ReplyModel::<A, R, B>::Degraded { dependency: "srvcs-floatadd"@ }).error_fields() == seq![
            ("error"@, FieldValueModel::Text("dependency unavailable"@)),
            ("dependency"@, FieldValueModel::Text("srvcs-floatadd"@)),
        ],
{
    reveal_strlit("srvcs-floatadd");
    law_first_failure_decides::<A, R, B>(a, b, replies, k);
}

/// Operands of different lengths: the reply is `422`, and its body is the
/// error text, then `a_len` with the length of `a`, then `b_len` with the
/// length of `b`.
pub proof fn law_mismatch_body_names_both_lengths<A, R, B>(a: Seq<A>, b: Seq<A>)
    requires
        a.len() != b.len(),
    ensures
        begin_model::<A, R, B>(a, b) matches NextModel::Respond(r) && {
            &&& r.status() == 422
            &&& r.error_fields().len() == 3
            &&& r.error_fields()[0] == ("error"@, FieldValueModel::Text(
                "vectors must have equal length"@,
            ))
            &&& r.error_fields()[1] == ("a_len"@, FieldValueModel::Count(a.len()))
            &&& r.error_fields()[2] == ("b_len"@, FieldValueModel::Count(b.len()))
        },
{
}

/// The body of a length-mismatch reply holds `a_len` and `b_len` exactly as
/// the reply carries them, in that order, whatever their sizes.
pub proof fn law_mismatch_fields<A, R, B>(a_len: nat, b_len: nat)
    ensures
        (ReplyModel::<A, R, B>::LengthMismatch { a_len, b_len }).error_fields().len() == 3,
        (ReplyModel::<A, R, B>::LengthMismatch { a_len, b_len }).error_fields()[1] == (
            "a_len"@,
            FieldValueModel::Count(a_len),
        ),
        (ReplyModel::<A, R, B>::LengthMismatch { a_len, b_len }).error_fields()[2] == (
            "b_len"@,
            FieldValueModel::Count(b_len),
        ),
{
}

/// The status of each reply, as the service's error behaviour documents it:
/// `200` for the sums, `422` for a length mismatch, `503` for an unavailable
/// dependency, `500` for a malformed answer, and a forwarded status as it came
/// where it is a status code (100 to 999), else `502`.
pub proof fn law_reply_statuses<A, R, B>(
    a: Seq<A>,
    b: Seq<A>,
    result: Seq<R>,
    a_len: nat,
    b_len: nat,
    dependency: Seq<char>,
    status: u16,
    body: B,
)
    ensures
        (ReplyModel::<A, R, B>::Evaluated { a, b, result }).status() == 200,
        (ReplyModel::<A, R, B>::LengthMismatch { a_len, b_len }).status() == 422,
        (ReplyModel::<A, R, B>::Degraded { dependency }).status() == 503,
        (ReplyModel::<A, R, B>::Malformed { dependency }).status() == 500,
        100 <= status <= 999 ==> (ReplyModel::<A, R, B>::Forwarded { status, body }).status()
            == status,
        !(100 <= status <= 999) ==> (ReplyModel::<A, R, B>::Forwarded { status, body }).status()
            == 502,
{
}

/// The bodies this service words itself: the error text first, then the
/// dependency's name; the sums and a forwarded body have none of these.
pub proof fn law_failure_bodies<A, R, B>(
    a_len: nat,
    b_len: nat,
    a: Seq<A>,
    b: Seq<A>,
    result: Seq<R>,
    dependency: Seq<char>,
    status: u16,
    body: B,
)
    ensures
        (ReplyModel::<A, R, B>::Degraded { dependency }).error_fields() == seq![
            ("error"@, FieldValueModel::Text("dependency unavailable"@)),
            ("dependency"@, FieldValueModel::Text(dependency)),
        ],
        (ReplyModel::<A, R, B>::Malformed { dependency }).error_fields() == seq![
            ("error"@, FieldValueModel::Text("dependency returned a malformed result"@)),
            ("dependency"@, FieldValueModel::Text(dependency)),
        ],
        (ReplyModel::<A, R, B>::Evaluated { a, b, result }).error_fields().len() == 0,
        (ReplyModel::<A, R, B>::Forwarded { status, body }).error_fields().len() == 0,
        (ReplyModel::<A, R, B>::Degraded { dependency }).error_message() == Some(
            "dependency unavailable"@,
        ),
        (ReplyModel::<A, R, B>::Malformed { dependency }).error_message() == Some(
            "dependency returned a malformed result"@,
        ),
        (ReplyModel::<A, R, B>::LengthMismatch { a_len, b_len }).error_message() == Some(
            "vectors must have equal length"@,
        ),
        (ReplyModel::<A, R, B>::Evaluated { a, b, result }).error_message() is None,
        (ReplyModel::<A, R, B>::Forwarded { status, body }).error_message() is None,
{
}

/// The reply's status is one that the OpenAPI document lists for `POST /`,
/// and a forwarded reply carries `422`.
pub open spec fn documented<A, R, B>(reply: ReplyModel<A, R, B>) -> bool {
    &&& documented_post_statuses().contains(reply.status())
    &&& reply matches ReplyModel::Forwarded { status, .. } ==> status == 422
}

proof fn lemma_proceed_documented<A, R, B>(p: Progress<A, R>)
    ensures
        proceed_model::<A, R, B>(p) matches NextModel::Respond(r) ==> documented(r),
{
    assert(documented_post_statuses()[0] == 200);
}

proof fn lemma_drive_documented<A, R, B>(p: Progress<A, R>, replies: Seq<DependencyReply<R, B>>)
    ensures
        drive(NextModel::<A, R, B>::Call(p), replies) matches NextModel::Respond(r) ==> documented(
            r,
        ),
    decreases replies.len(),
{
    if replies.len() > 0 {
        let next = resume_model::<A, R, B>(p, replies[0]);
        assert(documented_post_statuses()[0] == 200);
        assert(documented_post_statuses()[1] == 422);
        assert(documented_post_statuses()[2] == 500);
        assert(documented_post_statuses()[3] == 503);
        match ask_model::<A, R, B>(replies[0], FLOATADD@) {
            Ok(r0) => {
                lemma_proceed_documented::<A, R, B>(
                    Progress { a: p.a, b: p.b, result: p.result.push(r0) },
                );
            },
            Err(e) => {
                assert(documented(e));
            },
        }
        match next {
            NextModel::Call(q) => {
                lemma_drive_documented::<A, R, B>(q, replies.drop_first());
            },
            NextModel::Respond(_) => {
                assert(drive(next, replies.drop_first()) == next);
            },
        }
        assert(drive(NextModel::<A, R, B>::Call(p), replies) == drive(next, replies.drop_first()));
    }
}

/// Whatever the operands and whatever the dependency answers, the reply that
/// `POST /` sends carries a status that its OpenAPI document lists.
pub proof fn law_every_reply_is_documented<A, R, B>(
    a: Seq<A>,
    b: Seq<A>,
    replies: Seq<DependencyReply<R, B>>,
)
    ensures
        drive(begin_model::<A, R, B>(a, b), replies) matches NextModel::Respond(r) ==> documented(r),
{
    assert(documented_post_statuses()[1] == 422);
    if a.len() == b.len() {
        let p0 = Progress { a, b, result: Seq::<R>::empty() };
        lemma_proceed_documented::<A, R, B>(p0);
        match proceed_model::<A, R, B>(p0) {
            NextModel::Call(q) => lemma_drive_documented::<A, R, B>(q, replies),
            NextModel::Respond(_) => {},
        }
    }
}

} // verus!
