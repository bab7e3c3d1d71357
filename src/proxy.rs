use vstd::prelude::*;

use crate::outcome::Outcome;

verus! {

/// The upstream address of a forwarded request: the configured base URL followed by the
/// request's path and query, or by its bare path when it has no query part.
pub open spec fn upstream_url_of(
    target: Seq<char>,
    path: Seq<char>,
    path_and_query: Option<Seq<char>>,
) -> Seq<char> {
    match path_and_query {
        Some(pq) => target + pq,
        None => target + path,
    }
}

/// Builds the upstream address of a forwarded request.
pub fn upstream_url(target: &str, path: &str, path_and_query: Option<&str>) -> (r: String)
    ensures
        r@ == upstream_url_of(
            target@,
            path@,
            match path_and_query {
                Some(pq) => Some(pq@),
                None => None,
            },
        ),
{
    let base = String::from_str(target);
    match path_and_query {
        Some(pq) => base.concat(pq),
        None => base.concat(path),
    }
}

/// Where one forwarded request stands.
#[derive(Debug, Clone, Copy, PartialEq, Eq, Structural)]
pub enum RelayState {
    /// The inbound body is being read into memory.
    ReadingBody,
    /// The outbound call has been issued.
    AwaitingUpstream,
    /// Status and headers went out; body chunks are relayed as they arrive.
    Streaming,
    /// Nothing more will be written.
    Done,
}

/// What the gateway observed while forwarding.
#[derive(Debug, Clone, Copy, PartialEq, Eq, Structural)]
pub enum RelayEvent {
    BodyRead,
    BodyUnreadable,
    UpstreamAnswered(u16),
    UpstreamFailed,
    Chunk,
    StreamEnded,
    StreamBroken,
    DeadlinePassed,
}

/// What the gateway must do next.
#[derive(Debug, Clone, Copy, PartialEq, Eq, Structural)]
pub enum RelayAction {
    /// Issue the outbound call with the buffered body.
    CallUpstream,
    /// Answer with this upstream status and the upstream headers, then stream the body.
    SendHead(u16),
    /// Hand the chunk to the caller now, keeping nothing of it.
    PassChunk,
    /// The body is complete: end the response.
    Finish,
    /// Answer with this outcome; no byte had been written yet.
    Fail(Outcome),
    /// Drop the upstream call and close the caller's connection mid-body.
    CloseConnection,
    /// Nothing to do.
    Ignore,
}

/// One step of the forwarding state machine.
pub open spec fn relay_next(s: RelayState, e: RelayEvent) -> (RelayState, RelayAction) {
    match s {
        RelayState::ReadingBody => match e {
            RelayEvent::BodyRead => (RelayState::AwaitingUpstream, RelayAction::CallUpstream),
            RelayEvent::BodyUnreadable => (
                RelayState::Done,
                RelayAction::Fail(Outcome::BadUpstreamRequest),
            ),
            RelayEvent::DeadlinePassed => (
                RelayState::Done,
                RelayAction::Fail(Outcome::AdmissionTimedOut),
            ),
            _ => (s, RelayAction::Ignore),
        },
        RelayState::AwaitingUpstream => match e {
            RelayEvent::UpstreamAnswered(status) => (
                RelayState::Streaming,
                RelayAction::SendHead(status),
            ),
            RelayEvent::UpstreamFailed => (
                RelayState::Done,
                RelayAction::Fail(Outcome::UpstreamUnreachable),
            ),
            RelayEvent::DeadlinePassed => (
                RelayState::Done,
                RelayAction::Fail(Outcome::AdmissionTimedOut),
            ),
            _ => (s, RelayAction::Ignore),
        },
        RelayState::Streaming => match e {
            RelayEvent::Chunk => (s, RelayAction::PassChunk),
            RelayEvent::StreamEnded => (RelayState::Done, RelayAction::Finish),
            RelayEvent::StreamBroken => (RelayState::Done, RelayAction::CloseConnection),
            RelayEvent::DeadlinePassed => (RelayState::Done, RelayAction::CloseConnection),
            _ => (s, RelayAction::Ignore),
        },
        RelayState::Done => (s, RelayAction::Ignore),
    }
}

/// Advances a forwarded request by one observed event.
pub fn relay_step(s: RelayState, e: RelayEvent) -> (r: (RelayState, RelayAction))
    ensures
        r == relay_next(s, e),
{
    match s {
        RelayState::ReadingBody => match e {
            RelayEvent::BodyRead => (RelayState::AwaitingUpstream, RelayAction::CallUpstream),
            RelayEvent::BodyUnreadable => (
                RelayState::Done,
                RelayAction::Fail(Outcome::BadUpstreamRequest),
            ),
            RelayEvent::DeadlinePassed => (
                RelayState::Done,
                RelayAction::Fail(Outcome::AdmissionTimedOut),
            ),
            _ => (s, RelayAction::Ignore),
        },
        RelayState::AwaitingUpstream => match e {
            RelayEvent::UpstreamAnswered(status) => (
                RelayState::Streaming,
                RelayAction::SendHead(status),
            ),
            RelayEvent::UpstreamFailed => (
                RelayState::Done,
                RelayAction::Fail(Outcome::UpstreamUnreachable),
            ),
            RelayEvent::DeadlinePassed => (
                RelayState::Done,
                RelayAction::Fail(Outcome::AdmissionTimedOut),
            ),
            _ => (s, RelayAction::Ignore),
        },
        RelayState::Streaming => match e {
            RelayEvent::Chunk => (s, RelayAction::PassChunk),
            RelayEvent::StreamEnded => (RelayState::Done, RelayAction::Finish),
            RelayEvent::StreamBroken => (RelayState::Done, RelayAction::CloseConnection),
            RelayEvent::DeadlinePassed => (RelayState::Done, RelayAction::CloseConnection),
            _ => (s, RelayAction::Ignore),
        },
        RelayState::Done => (s, RelayAction::Ignore),
    }
}

/// The actions taken for a run of events, starting in state `s`.
pub open spec fn relay_actions(s: RelayState, es: Seq<RelayEvent>) -> Seq<RelayAction>
    decreases es.len(),
{
    if es.len() == 0 {
        Seq::empty()
    } else {
        let (s2, a) = relay_next(s, es[0]);
        seq![a] + relay_actions(s2, es.drop_first())
    }
}

/// Whether an action answers the caller with a status.
pub open spec fn is_response(a: RelayAction) -> bool {
    a is SendHead || a is Fail
}

/// How many actions answer the caller with a status.
pub open spec fn response_count(acts: Seq<RelayAction>) -> nat
    decreases acts.len(),
{
    if acts.len() == 0 {
        0
    } else {
        (if is_response(acts[0]) {
            1nat
        } else {
            0nat
        }) + response_count(acts.drop_first())
    }
}

proof fn lemma_actions_len(s: RelayState, es: Seq<RelayEvent>)
    ensures
        relay_actions(s, es).len() == es.len(),
    decreases es.len(),
{
    if es.len() > 0 {
        lemma_actions_len(relay_next(s, es[0]).0, es.drop_first());
    }
}

/// Whatever events arrive, a forwarded request is answered with a status at most once, and
/// never again once its head has gone out.
pub proof fn at_most_one_response(s: RelayState, es: Seq<RelayEvent>)
    ensures
        response_count(relay_actions(s, es)) <= 1,
        s == RelayState::Streaming || s == RelayState::Done ==> response_count(
            relay_actions(s, es),
        ) == 0,
    decreases es.len(),
{
    if es.len() > 0 {
        let (s2, a) = relay_next(s, es[0]);
        let acts = relay_actions(s, es);
        at_most_one_response(s2, es.drop_first());
        assert(acts.drop_first() =~= relay_actions(s2, es.drop_first()));
        assert(acts[0] == a);
        if is_response(a) {
            assert(s2 == RelayState::Streaming || s2 == RelayState::Done);
        }
    }
}

/// Once the deadline has passed, the request is over: no chunk is relayed, no upstream call
/// is issued and nothing more is answered, whatever arrives afterwards.
pub proof fn nothing_after_deadline(s: RelayState, es: Seq<RelayEvent>)
    ensures
        relay_next(s, RelayEvent::DeadlinePassed).0 == RelayState::Done,
        forall|i: int|
            0 <= i < es.len() ==> #[trigger] relay_actions(RelayState::Done, es)[i]
                == RelayAction::Ignore,
    decreases es.len(),
{
    if es.len() > 0 {
        nothing_after_deadline(s, es.drop_first());
        lemma_actions_len(RelayState::Done, es);
        let acts = relay_actions(RelayState::Done, es);
        assert(acts.drop_first() =~= relay_actions(RelayState::Done, es.drop_first()));
        assert forall|i: int| 0 <= i < es.len() implies #[trigger] acts[i]
            == RelayAction::Ignore by {
            if i > 0 {
                assert(acts[i] == acts.drop_first()[i - 1]);
            }
        }
    }
}

/// While the body streams, each chunk is handed on in the step it arrives in: however long
/// an upstream keeps sending, the gateway holds no chunk back.
pub proof fn chunks_pass_through(es: Seq<RelayEvent>)
    requires
        forall|i: int| 0 <= i < es.len() ==> #[trigger] es[i] == RelayEvent::Chunk,
    ensures
        forall|i: int|
            0 <= i < es.len() ==> #[trigger] relay_actions(RelayState::Streaming, es)[i]
                == RelayAction::PassChunk,
    decreases es.len(),
{
    if es.len() > 0 {
        let rest = es.drop_first();
        assert forall|i: int| 0 <= i < rest.len() implies #[trigger] rest[i]
            == RelayEvent::Chunk by {
            assert(rest[i] == es[i + 1]);
        }
        chunks_pass_through(rest);
        lemma_actions_len(RelayState::Streaming, es);
        let acts = relay_actions(RelayState::Streaming, es);
        assert(acts.drop_first() =~= relay_actions(RelayState::Streaming, rest));
        assert forall|i: int| 0 <= i < es.len() implies #[trigger] acts[i]
            == RelayAction::PassChunk by {
            if i > 0 {
                assert(acts[i] == acts.drop_first()[i - 1]);
            }
        }
    }
}

/// An unreadable body is answered 400 before any upstream call, and the request ends there;
/// a failed upstream call is answered 502.
pub proof fn forward_failures(es: Seq<RelayEvent>)
    ensures
        relay_next(RelayState::ReadingBody, RelayEvent::BodyUnreadable) == (
            RelayState::Done,
            RelayAction::Fail(Outcome::BadUpstreamRequest),
        ),
        !relay_actions(RelayState::Done, es).contains(RelayAction::CallUpstream),
        relay_next(RelayState::AwaitingUpstream, RelayEvent::UpstreamFailed) == (
            RelayState::Done,
            RelayAction::Fail(Outcome::UpstreamUnreachable),
        ),
{
    nothing_after_deadline(RelayState::Done, es);
    lemma_actions_len(RelayState::Done, es);
}

} // verus!
