//! Runs of a stage: where it stands after replies, and what it asked and was answered on the way.
use vstd::prelude::*;

use crate::machine_creator::requests::{Progress, Reply, Request};

verus! {

/// Where a stage stands after these replies, from where it starts and how it goes on.
pub open spec fn after<S, T>(
    start: Progress<S, T>,
    next: spec_fn(S, Reply) -> Progress<S, T>,
    replies: Seq<Reply>,
) -> Progress<S, T>
    decreases replies.len(),
{
    if replies.len() == 0 {
        start
    } else {
        match after(start, next, replies.drop_last()) {
            Progress::Ask(stage, _) => next(stage, replies.last()),
            done => done,
        }
    }
}

/// Whether the stage makes this request after the first `n` of these replies.
pub open spec fn asks_at<S, T>(
    start: Progress<S, T>,
    next: spec_fn(S, Reply) -> Progress<S, T>,
    replies: Seq<Reply>,
    n: int,
    request: Request,
) -> bool {
    after(start, next, replies.subrange(0, n)) matches Progress::Ask(_, made) && made == request
}

/// Whether the stage makes this request at some point and gets this reply.
#[verifier::opaque]
pub open spec fn answered<S, T>(
    start: Progress<S, T>,
    next: spec_fn(S, Reply) -> Progress<S, T>,
    replies: Seq<Reply>,
    request: Request,
    reply: Reply,
) -> bool {
    exists|n: int|
        {
            &&& 0 <= n < replies.len()
            &&& #[trigger] asks_at(start, next, replies, n, request)
            &&& replies[n] == reply
        }
}

/// What was answered stays answered, and the latest reply answers the latest request.
pub proof fn history_grows<S, T>(
    start: Progress<S, T>,
    next: spec_fn(S, Reply) -> Progress<S, T>,
    replies: Seq<Reply>,
)
    requires
        replies.len() > 0,
    ensures
        forall|request: Request, reply: Reply| #[trigger]
            answered(start, next, replies.drop_last(), request, reply) ==> answered(
                start,
                next,
                replies,
                request,
                reply,
            ),
        after(start, next, replies.drop_last()) matches Progress::Ask(_, request) ==> answered(
            start,
            next,
            replies,
            request,
            replies.last(),
        ),
{
    reveal(answered);
    let before = replies.drop_last();
    assert forall|request: Request, reply: Reply| #[trigger]
        answered(start, next, before, request, reply) implies answered(
        start,
        next,
        replies,
        request,
        reply,
    ) by {
        let n = choose|n: int|
            {
                &&& 0 <= n < before.len()
                &&& #[trigger] asks_at(start, next, before, n, request)
                &&& before[n] == reply
            };
        assert(before.subrange(0, n) =~= replies.subrange(0, n));
        assert(asks_at(start, next, replies, n, request));
        assert(replies[n] == reply);
    }
    assert(replies.subrange(0, before.len() as int) =~= before);
    if let Progress::Ask(_, request) = after(start, next, before) {
        assert(asks_at(start, next, replies, before.len() as int, request));
    }
}

/// Whether this was asked and answered so, by a log of requests with their replies.
#[verifier::opaque]
pub open spec fn told(log: Seq<(Request, Reply)>, request: Request, reply: Reply) -> bool {
    log.contains((request, reply))
}

/// What was told stays told, and the latest reply is told.
pub proof fn log_grows(log: Seq<(Request, Reply)>)
    requires
        log.len() > 0,
    ensures
        forall|request: Request, reply: Reply| #[trigger]
            told(log.drop_last(), request, reply) ==> told(log, request, reply),
        told(log, log.last().0, log.last().1),
{
    reveal(told);
    let before = log.drop_last();
    assert forall|request: Request, reply: Reply| #[trigger]
        told(before, request, reply) implies told(log, request, reply) by {
        let i = choose|i: int| 0 <= i < before.len() && before[i] == (request, reply);
        assert(log[i] == (request, reply));
    }
    assert(log[log.len() - 1] == (log.last().0, log.last().1));
}

} // verus!
