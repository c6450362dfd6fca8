//! Conversations with hardware and drivers.
//!
//! But for the questions to NVML, the library performs no input or output itself. A hardware
//! operation is a conversation: it asks for one request at a time and goes on from the reply. The
//! caller holds the replies that are in so far in a [`Session`] and runs the operation on it.
//! While replies are missing, the operation returns `Err` with the request that has to be
//! performed next; the caller performs it, appends the reply to its list and runs the operation
//! again on the whole list. Once every reply is in, the operation returns `Ok`.
//!
//! Which requests an operation makes, and how they depend on the replies, is stated by a
//! [`Dialogue`].
use vstd::prelude::*;

verus! {

/// The requests of a conversation, and how it goes on from each reply.
#[verifier::reject_recursive_types(R)]
pub enum Dialogue<O, R, T> {
    /// Nothing is left to ask for: the conversation ends with this value.
    End(T),
    /// Make this request; the reply decides how the conversation goes on.
    Ask(O, spec_fn(R) -> Dialogue<O, R, T>),
}

/// How far a conversation gets on a list of replies.
pub enum Outcome<O, R, T> {
    /// It ended with `value` and left the replies `rest` unread.
    Finished { value: T, rest: Seq<R> },
    /// It read all replies and `request` is what it makes next.
    Waiting { request: O },
}

/// Makes one request and ends with its reply.
pub open spec fn asking<O, R>(request: O) -> Dialogue<O, R, R> {
    Dialogue::Ask(request, |reply: R| Dialogue::End(reply))
}

impl<O, R, T> Dialogue<O, R, T> {
    /// This conversation, and then the one that `next` makes of its value.
    pub open spec fn bind<U>(self, next: spec_fn(T) -> Dialogue<O, R, U>) -> Dialogue<O, R, U>
        decreases self,
    {
        match self {
            Dialogue::End(value) => next(value),
            Dialogue::Ask(request, k) => Dialogue::Ask(request, |reply: R| k(reply).bind(next)),
        }
    }

    /// This conversation, whose value is dropped, and then `next`.
    pub open spec fn followed_by<U>(self, next: Dialogue<O, R, U>) -> Dialogue<O, R, U> {
        self.bind(|_value: T| next)
    }
}

/// Runs a conversation on the given replies.
pub open spec fn replay<O, R, T>(d: Dialogue<O, R, T>, replies: Seq<R>) -> Outcome<O, R, T>
    decreases d,
{
    match d {
        Dialogue::End(value) => Outcome::Finished { value, rest: replies },
        Dialogue::Ask(request, k) => if replies.len() == 0 {
            Outcome::Waiting { request }
        } else {
            replay(k(replies[0]), replies.drop_first())
        },
    }
}

/// The requests that a conversation makes on the given replies, in order. Where the replies run
/// out, the last one is the request that is still to be performed.
pub open spec fn requests<O, R, T>(d: Dialogue<O, R, T>, replies: Seq<R>) -> Seq<O>
    decreases d,
{
    match d {
        Dialogue::End(value) => seq![],
        Dialogue::Ask(request, k) => if replies.len() == 0 {
            seq![request]
        } else {
            seq![request] + requests(k(replies[0]), replies.drop_first())
        },
    }
}

/// What a function returns that holds the conversation `d` on the replies `before`: the value
/// and the replies it left, or the request that is to be performed next.
pub open spec fn ran<O, R, T>(
    d: Dialogue<O, R, T>,
    before: Seq<R>,
    after: Seq<R>,
    out: Result<T, O>,
) -> bool {
    replay(d, before) == (match out {
        Ok(value) => Outcome::Finished { value, rest: after },
        Err(request) => Outcome::Waiting { request },
    })
}

/// A conversation against a partner that answers each request by `respond` and changes its
/// state with it. Ends with the partner's last state and the conversation's value.
pub open spec fn converse<S, O, R, T>(
    d: Dialogue<O, R, T>,
    partner: S,
    respond: spec_fn(S, O) -> (S, R),
) -> (S, T)
    decreases d,
{
    match d {
        Dialogue::End(value) => (partner, value),
        Dialogue::Ask(request, k) => {
            let (next, reply) = respond(partner, request);
            converse(k(reply), next, respond)
        },
    }
}

/// The replies that such a partner gives in a conversation.
pub open spec fn answers<S, O, R, T>(
    d: Dialogue<O, R, T>,
    partner: S,
    respond: spec_fn(S, O) -> (S, R),
) -> Seq<R>
    decreases d,
{
    match d {
        Dialogue::End(value) => seq![],
        Dialogue::Ask(request, k) => {
            let (next, reply) = respond(partner, request);
            seq![reply] + answers(k(reply), next, respond)
        },
    }
}

/// Two conversations in sequence run as the first one, and then the second on what it left.
pub broadcast proof fn lemma_replay_bind<O, R, T, U>(
    d: Dialogue<O, R, T>,
    next: spec_fn(T) -> Dialogue<O, R, U>,
    replies: Seq<R>,
)
    ensures
        #[trigger] replay(d.bind(next), replies) == (match replay(d, replies) {
            Outcome::Finished { value, rest } => replay(next(value), rest),
            Outcome::Waiting { request } => Outcome::Waiting { request },
        }),
    decreases d,
{
    if let Dialogue::Ask(request, k) = d {
        if replies.len() > 0 {
            lemma_replay_bind(k(replies[0]), next, replies.drop_first());
        }
    }
}

/// A single request waits for its reply, or ends with it.
pub broadcast proof fn lemma_replay_asking<O, R>(request: O, replies: Seq<R>)
    ensures
        #[trigger] replay(asking::<O, R>(request), replies) == (if replies.len() == 0 {
            Outcome::Waiting { request }
        } else {
            Outcome::Finished { value: replies[0], rest: replies.drop_first() }
        }),
{
    reveal_with_fuel(replay, 2);
}

/// Two conversations in sequence meet a partner one after the other.
pub broadcast proof fn lemma_converse_bind<S, O, R, T, U>(
    d: Dialogue<O, R, T>,
    next: spec_fn(T) -> Dialogue<O, R, U>,
    partner: S,
    respond: spec_fn(S, O) -> (S, R),
)
    ensures
        #[trigger] converse(d.bind(next), partner, respond) == ({
            let (after, value) = converse(d, partner, respond);
            converse(next(value), after, respond)
        }),
    decreases d,
{
    if let Dialogue::Ask(request, k) = d {
        let (after, reply) = respond(partner, request);
        lemma_converse_bind(k(reply), next, after, respond);
    }
}

/// A single request ends with the partner's answer.
pub broadcast proof fn lemma_converse_asking<S, O, R>(
    request: O,
    partner: S,
    respond: spec_fn(S, O) -> (S, R),
)
    ensures
        #[trigger] converse(asking::<O, R>(request), partner, respond) == respond(partner, request),
{
    reveal_with_fuel(converse, 2);
}

/// Two conversations in sequence make the requests of the first one, and then, if it ends, those
/// of the second.
pub broadcast proof fn lemma_requests_bind<O, R, T, U>(
    d: Dialogue<O, R, T>,
    next: spec_fn(T) -> Dialogue<O, R, U>,
    replies: Seq<R>,
)
    ensures
        #[trigger] requests(d.bind(next), replies) == requests(d, replies) + (match replay(
            d,
            replies,
        ) {
            Outcome::Finished { value, rest } => requests(next(value), rest),
            Outcome::Waiting { .. } => seq![],
        }),
    decreases d,
{
    match d {
        Dialogue::End(value) => {
            assert(requests(next(value), replies) =~= Seq::<O>::empty() + requests(
                next(value),
                replies,
            ));
        },
        Dialogue::Ask(request, k) => {
            if replies.len() > 0 {
                lemma_requests_bind(k(replies[0]), next, replies.drop_first());
            }
            assert(requests(d.bind(next), replies) =~= requests(d, replies) + (match replay(
                d,
                replies,
            ) {
                Outcome::Finished { value, rest } => requests(next(value), rest),
                Outcome::Waiting { .. } => seq![],
            }));
        },
    }
}

/// A single request is the only one.
pub broadcast proof fn lemma_requests_asking<O, R>(request: O, replies: Seq<R>)
    ensures
        #[trigger] requests(asking::<O, R>(request), replies) == seq![request],
{
    reveal_with_fuel(requests, 2);
    assert(requests(asking::<O, R>(request), replies) =~= seq![request]);
}

pub broadcast group group_replay {
    lemma_replay_bind,
    lemma_replay_asking,
}

pub broadcast group group_converse {
    lemma_converse_bind,
    lemma_converse_asking,
}

pub broadcast group group_requests {
    lemma_requests_bind,
    lemma_requests_asking,
}

/// A conversation that waits has made one request more than it has replies, and the last one is
/// the request it waits for.
pub proof fn lemma_waiting_makes_one_more<O, R, T>(d: Dialogue<O, R, T>, replies: Seq<R>)
    ensures
        match replay(d, replies) {
            Outcome::Waiting { request } => {
                &&& requests(d, replies).len() == replies.len() + 1
                &&& requests(d, replies).last() == request
            },
            Outcome::Finished { rest, .. } => requests(d, replies).len() + rest.len()
                == replies.len(),
        },
    decreases d,
{
    if let Dialogue::Ask(request, k) = d {
        if replies.len() > 0 {
            lemma_waiting_makes_one_more(k(replies[0]), replies.drop_first());
        }
    }
}

/// Further replies never take back a request: every request that was made on the shorter list
/// is made again, in the same place, on the longer one. So a caller that performs the request it
/// is given and runs the conversation again performs each request once and in order.
pub proof fn lemma_requests_stand<O, R, T>(
    d: Dialogue<O, R, T>,
    replies: Seq<R>,
    further: Seq<R>,
)
    ensures
        requests(d, replies).is_prefix_of(requests(d, replies + further)),
    decreases d,
{
    if let Dialogue::Ask(request, k) = d {
        if replies.len() > 0 {
            assert((replies + further).drop_first() =~= replies.drop_first() + further);
            lemma_requests_stand(k(replies[0]), replies.drop_first(), further);
        }
    }
}

/// A conversation that has ended ends with the same value whatever replies come after.
pub proof fn lemma_end_stands<O, R, T>(d: Dialogue<O, R, T>, replies: Seq<R>, further: Seq<R>)
    ensures
        replay(d, replies) matches Outcome::Finished { value, rest } ==> replay(
            d,
            replies + further,
        ) == (Outcome::<O, R, T>::Finished { value, rest: rest + further }),
    decreases d,
{
    if let Dialogue::Ask(request, k) = d {
        if replies.len() > 0 {
            assert((replies + further).drop_first() =~= replies.drop_first() + further);
            lemma_end_stands(k(replies[0]), replies.drop_first(), further);
        }
    }
}

/// A caller that hands each request to a partner, and runs the conversation again with its
/// reply, comes to an end, with the value that the conversation has against that partner: as
/// long as replies of the partner are missing the conversation waits, and once all are in it has
/// ended.
pub proof fn lemma_caller_comes_to_an_end<S, O, R, T>(
    d: Dialogue<O, R, T>,
    partner: S,
    respond: spec_fn(S, O) -> (S, R),
    n: int,
)
    requires
        0 <= n <= answers(d, partner, respond).len(),
    ensures
        n < answers(d, partner, respond).len() ==> replay(
            d,
            answers(d, partner, respond).take(n),
        ) is Waiting,
        n == answers(d, partner, respond).len() ==> replay(
            d,
            answers(d, partner, respond).take(n),
        ) == (Outcome::<O, R, T>::Finished {
            value: converse(d, partner, respond).1,
            rest: seq![],
        }),
    decreases d,
{
    let all = answers(d, partner, respond);
    match d {
        Dialogue::End(value) => {
            assert(all.take(n) =~= seq![]);
        },
        Dialogue::Ask(request, k) => {
            let (next, reply) = respond(partner, request);
            if n > 0 {
                lemma_caller_comes_to_an_end(k(reply), next, respond, n - 1);
                assert(all.take(n).drop_first() =~= answers(k(reply), next, respond).take(n - 1));
            }
        },
    }
}

/// The replies that are in so far, read from the front.
pub struct Session<R> {
    /// The unread replies, the next one last.
    unread: Vec<R>,
}

impl<R> Session<R> {
    /// The replies that have not been read yet, the next one first.
    pub closed spec fn remaining(&self) -> Seq<R> {
        self.unread@.reverse()
    }

    /// A session on the given replies, none of them read.
    pub fn new(replies: Vec<R>) -> (session: Self)
        ensures
            session.remaining() == replies@,
    {
        let mut left = replies;
        let mut unread: Vec<R> = Vec::new();
        while left.len() > 0
            invariant
                left@ + unread@.reverse() == replies@,
            decreases left.len(),
        {
            let ghost before = left@ + unread@.reverse();
            if let Some(reply) = left.pop() {
                unread.push(reply);
            }
            assert(left@ + unread@.reverse() =~= before);
        }
        assert(left@ + unread@.reverse() =~= unread@.reverse());
        Session { unread }
    }

    /// Makes one request: returns its reply, or hands the request back where the reply is not
    /// in yet.
    pub fn ask<O>(&mut self, request: O) -> (out: Result<R, O>)
        ensures
            ran(asking(request), old(self).remaining(), final(self).remaining(), out),
    {
        broadcast use group_replay;

        match self.unread.pop() {
            Some(reply) => {
                assert(self.remaining() =~= old(self).remaining().drop_first());
                Ok(reply)
            },
            None => Err(request),
        }
    }
}

} // verus!
