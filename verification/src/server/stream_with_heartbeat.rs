//! A stream of responses that stays alive while there is nothing to send.

use vstd::prelude::*;

verus! {

/// What happens to the ticks of an interval that come late.
#[derive(Clone, Copy, Debug, PartialEq, Eq, Structural)]
pub enum MissedTicks {
    /// The next tick comes a full period after the late one.
    Delay,
}

/// What polling the responses gave, with responses of type `T`.
pub enum ResponsePoll<T> {
    /// Nothing yet.
    Pending,
    /// The next response, or none when there are no more.
    Ready(Option<T>),
}

/// What is to be done after the responses were polled.
pub enum ResponseStep<T> {
    /// Start the interval anew and hand this out.
    ResetAndReturn(Option<T>),
    /// Poll the interval.
    PollInterval,
}

/// What polling the stream gives when there is no response.
#[derive(Clone, Copy, Debug, PartialEq, Eq, Structural)]
pub enum IdlePoll {
    /// A heartbeat is sent.
    Heartbeat,
    /// Nothing yet.
    Pending,
}

/// What follows on what the responses gave: one that is there comes first.
pub open spec fn step_on<T>(polled: ResponsePoll<T>) -> ResponseStep<T> {
    match polled {
        ResponsePoll::Ready(data) => ResponseStep::ResetAndReturn(data),
        ResponsePoll::Pending => ResponseStep::PollInterval,
    }
}

/// What follows when there is no response: a heartbeat on each tick.
pub open spec fn idle_on(ticked: bool) -> IdlePoll {
    if ticked {
        IdlePoll::Heartbeat
    } else {
        IdlePoll::Pending
    }
}

/// The stream of the responses to one client, with a heartbeat whenever none
/// was sent for some time.
#[derive(Clone, Copy, Debug, PartialEq, Eq, Structural)]
pub struct ResponseStreamWithHeartbeat {
    /// The time between heartbeats, in milliseconds.
    pub period_ms: u64,
    pub missed_ticks: MissedTicks,
    /// Whether the first tick comes a full period after the start.
    pub starts_reset: bool,
    /// Whether the worker that produces the responses was told to stop.
    pub cancelled: bool,
}

impl ResponseStreamWithHeartbeat {
    /// A stream that has sent nothing, with this time between heartbeats.
    pub fn new(period_ms: u64) -> (r: Self)
        ensures
            r.period_ms == period_ms,
            r.missed_ticks == MissedTicks::Delay,
            r.starts_reset,
            !r.cancelled,
    {
        ResponseStreamWithHeartbeat {
            period_ms,
            missed_ticks: MissedTicks::Delay,
            starts_reset: true,
            cancelled: false,
        }
    }

    /// A response that is there comes first, and starts the interval anew. The
    /// end of the responses is the end of the stream.
    pub fn poll_next<T>(&self, polled: ResponsePoll<T>) -> (r: ResponseStep<T>)
        ensures
            r == step_on(polled),
    {
        match polled {
            ResponsePoll::Ready(data) => ResponseStep::ResetAndReturn(data),
            ResponsePoll::Pending => ResponseStep::PollInterval,
        }
    }

    /// Without a response, a tick of the interval is a heartbeat.
    pub fn poll_interval(&self, ticked: bool) -> (r: IdlePoll)
        ensures
            r == idle_on(ticked),
    {
        if ticked {
            IdlePoll::Heartbeat
        } else {
            IdlePoll::Pending
        }
    }

    /// A stream that its client has dropped stops the worker behind it.
    pub fn dropped(&mut self)
        ensures
            *final(self) == (ResponseStreamWithHeartbeat { cancelled: true, ..*old(self) }),
    {
        self.cancelled = true;
    }
}

/// What the client is sent on one poll of the stream.
pub enum Sent<T> {
    Response(T),
    Heartbeat,
    End,
    Nothing,
}

/// What the client is sent when the responses gave this, and the interval has
/// ticked or not.
pub open spec fn sent_on<T>(polled: ResponsePoll<T>, ticked: bool) -> Sent<T> {
    match step_on(polled) {
        ResponseStep::ResetAndReturn(Some(data)) => Sent::Response(data),
        ResponseStep::ResetAndReturn(None) => Sent::End,
        ResponseStep::PollInterval => match idle_on(ticked) {
            IdlePoll::Heartbeat => Sent::Heartbeat,
            IdlePoll::Pending => Sent::Nothing,
        },
    }
}

/// The responses that a run of polls gave.
pub open spec fn ready_responses<T>(polls: Seq<(ResponsePoll<T>, bool)>) -> Seq<T>
    decreases polls.len(),
{
    if polls.len() == 0 {
        Seq::empty()
    } else {
        let before = ready_responses(polls.drop_last());
        match polls.last().0 {
            ResponsePoll::Ready(Some(data)) => before.push(data),
            _ => before,
        }
    }
}

/// The responses among what the client is sent over a run of polls.
pub open spec fn sent_responses<T>(polls: Seq<(ResponsePoll<T>, bool)>) -> Seq<T>
    decreases polls.len(),
{
    if polls.len() == 0 {
        Seq::empty()
    } else {
        let before = sent_responses(polls.drop_last());
        match sent_on(polls.last().0, polls.last().1) {
            Sent::Response(data) => before.push(data),
            _ => before,
        }
    }
}

/// Law: heartbeats come only in between. No matter when the interval ticks,
/// every response is sent, once and in order.
pub proof fn responses_are_not_lost<T>(polls: Seq<(ResponsePoll<T>, bool)>)
    ensures
        sent_responses(polls) == ready_responses(polls),
    decreases polls.len(),
{
    if polls.len() > 0 {
        responses_are_not_lost(polls.drop_last());
    }
}

/// Law: a response that is there is handed out as it is, the end of the
/// responses too, and either starts the interval anew, whether or not it has
/// ticked. Only where there is nothing, a tick makes a heartbeat, and every tick
/// does.
pub proof fn heartbeats_fill_the_silence<T>(polled: ResponsePoll<T>, ticked: bool)
    ensures
        polled matches ResponsePoll::Ready(data) ==> step_on(polled)
            == ResponseStep::ResetAndReturn(data),
        polled is Pending ==> step_on(polled) is PollInterval,
        ticked <==> idle_on(ticked) is Heartbeat,
        !ticked <==> idle_on(ticked) is Pending,
        polled matches ResponsePoll::Ready(Some(data)) ==> sent_on(polled, ticked)
            == Sent::Response(data),
        sent_on(polled, ticked) is Heartbeat <==> polled is Pending && ticked,
        sent_on(polled, ticked) is Nothing <==> polled is Pending && !ticked,
        sent_on(polled, ticked) is End <==> (polled matches ResponsePoll::Ready(data)
            && data is None),
{
}

}
