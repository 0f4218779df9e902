use vstd::prelude::*;

use crate::engine::oneshot_send;
use crate::error::Error;

verus! {

/// Where one submission stands, seen from its caller: the request is being
/// handed to the worker, the reply is awaited, or the outcome is in hand.
pub enum SubmitState<T> {
    Sending,
    AwaitingReply,
    Resolved(Result<T, Error>),
}

/// What the caller's side of the protocol observed next: the bounded
/// request channel accepted the request, the channel was closed before it
/// could, this request's own reply channel delivered an outcome, or its
/// sending half was dropped without one.
pub enum SubmitEvent<T> {
    SendAccepted,
    SendRejected,
    ReplyDelivered(Result<T, Error>),
    SenderDropped,
}

/// Which events can reach a submission in a given state: channel events
/// while sending, reply events while awaiting, and none once resolved.
pub open spec fn submit_compatible<T>(state: SubmitState<T>, event: SubmitEvent<T>) -> bool {
    match state {
        SubmitState::Sending => event is SendAccepted || event is SendRejected,
        SubmitState::AwaitingReply => event is ReplyDelivered || event is SenderDropped,
        SubmitState::Resolved(_) => false,
    }
}

/// The submission protocol's transition: an accepted send moves to awaiting
/// the reply; a rejected send resolves to the closed-channel error; a
/// delivered reply resolves to that very outcome; a dropped sender resolves
/// to the lost-reply error.
pub open spec fn spec_submit_step<T>(state: SubmitState<T>, event: SubmitEvent<T>) -> SubmitState<
    T,
> {
    match event {
        SubmitEvent::SendAccepted => SubmitState::AwaitingReply,
        SubmitEvent::SendRejected => SubmitState::Resolved(
            Result::<T, Error>::Err(Error::TokioSend),
        ),
        SubmitEvent::ReplyDelivered(outcome) => SubmitState::Resolved(outcome),
        SubmitEvent::SenderDropped => SubmitState::Resolved(
            Result::<T, Error>::Err(Error::TokioRecv),
        ),
    }
}

/// Advances one submission by one observed event.
pub fn submit_step<T>(state: SubmitState<T>, event: SubmitEvent<T>) -> (next: SubmitState<T>)
    requires
        submit_compatible(state, event),
    ensures
        next == spec_submit_step(state, event),
{
    match event {
        SubmitEvent::SendAccepted => SubmitState::AwaitingReply,
        SubmitEvent::SendRejected => SubmitState::Resolved(
            Result::<T, Error>::Err(Error::TokioSend),
        ),
        SubmitEvent::ReplyDelivered(outcome) => SubmitState::Resolved(outcome),
        SubmitEvent::SenderDropped => SubmitState::Resolved(
            Result::<T, Error>::Err(Error::TokioRecv),
        ),
    }
}

/// Law: a submission resolves only to the outcome delivered on its own
/// reply channel, or to the channel error naming the layer that failed;
/// no other request's data can reach it.
pub proof fn lemma_reply_isolation<T>(state: SubmitState<T>, event: SubmitEvent<T>)
    requires
        submit_compatible(state, event),
    ensures
        spec_submit_step(state, event) matches SubmitState::Resolved(r) ==> {
            ||| (event matches SubmitEvent::ReplyDelivered(v) && r == v)
            ||| (event is SendRejected && r == Result::<T, Error>::Err(Error::TokioSend))
            ||| (event is SenderDropped && r == Result::<T, Error>::Err(Error::TokioRecv))
        },
{
}

/// Law: channel errors name the channel. When every worker-delivered
/// outcome carries only engine-side failures — which `transfer_outcome`
/// guarantees of the outcomes the worker produces — a submission resolves
/// to a channel-layer error only on a channel failure itself: a rejected
/// send or a dropped reply sender, never a delivered reply.
pub proof fn lemma_channel_errors_mean_channel_failure<T>(
    state: SubmitState<T>,
    event: SubmitEvent<T>,
)
    requires
        submit_compatible(state, event),
        event matches SubmitEvent::ReplyDelivered(outcome) ==> (outcome matches Err(e)
            ==> e.spec_is_engine_failure()),
    ensures
        spec_submit_step(state, event) matches SubmitState::Resolved(r) && r matches Err(e)
            && !e.spec_is_engine_failure() ==> (event is SendRejected || event is SenderDropped),
{
}

/// Law: a resolved submission accepts no further event, so each submission
/// yields exactly one outcome.
pub proof fn lemma_resolution_is_final<T>(state: SubmitState<T>, event: SubmitEvent<T>)
    requires
        state is Resolved,
    ensures
        !submit_compatible(state, event),
{
}

/// Hands a finished transfer's outcome to the caller over that caller's own
/// single-use reply channel. When the caller has abandoned the submission
/// (its receiving half is gone), the undelivered outcome comes back to be
/// discarded: the failure is local to this one transfer and never a fault
/// of the worker.
pub fn deliver_reply<T>(
    sender: tokio::sync::oneshot::Sender<Result<T, Error>>,
    outcome: Result<T, Error>,
) -> (undelivered: Option<Result<T, Error>>)
    ensures
        undelivered matches Some(v) ==> v == outcome,
{
    match oneshot_send(sender, outcome) {
        Result::Ok(_) => Option::None,
        Result::Err(v) => Option::Some(v),
    }
}

/// The worker's coarse states: idle with nothing registered, draining one
/// or more registered transfers, or stopped for good once the request
/// channel is closed and nothing remains registered.
pub enum WorkerMode {
    Idle,
    Draining,
    Stopped,
}

/// The worker's bookkeeping: how many transfers are registered with it and
/// whether the request channel still has senders.
pub struct WorkerState {
    pub registered: u64,
    pub channel_open: bool,
}

/// Settling one transfer unregisters it; whether its outcome reached the
/// caller plays no part in where the worker goes next.
pub open spec fn spec_settle(w: WorkerState, delivered: bool) -> WorkerState {
    WorkerState { registered: (w.registered - 1) as u64, channel_open: w.channel_open }
}

impl WorkerState {
    /// The coarse state this bookkeeping stands in.
    pub open spec fn mode(&self) -> WorkerMode {
        if self.registered == 0 && !self.channel_open {
            WorkerMode::Stopped
        } else if self.registered == 0 {
            WorkerMode::Idle
        } else {
            WorkerMode::Draining
        }
    }

    /// Reports the coarse state this bookkeeping stands in.
    pub fn current_mode(&self) -> (m: WorkerMode)
        ensures
            m == self.mode(),
    {
        if self.registered == 0 && !self.channel_open {
            WorkerMode::Stopped
        } else if self.registered == 0 {
            WorkerMode::Idle
        } else {
            WorkerMode::Draining
        }
    }

    /// A fresh worker: channel open, nothing registered, idle.
    pub fn new() -> (w: WorkerState)
        ensures
            w.registered == 0,
            w.channel_open,
            w.mode() is Idle,
    {
        WorkerState { registered: 0, channel_open: true }
    }

    /// Registers one dequeued request's transfer; the worker is draining
    /// from then on until every registered transfer settles.
    pub fn accept_request(&mut self)
        requires
            old(self).channel_open,
            old(self).registered < u64::MAX,
        ensures
            final(self).registered == old(self).registered + 1,
            final(self).channel_open == old(self).channel_open,
            final(self).mode() is Draining,
    {
        self.registered = self.registered + 1;
    }

    /// Unregisters one settled transfer, whether or not its outcome could
    /// still be delivered to the caller.
    pub fn settle_transfer(&mut self, delivered: bool)
        requires
            old(self).registered >= 1,
        ensures
            *final(self) == spec_settle(*old(self), delivered),
            final(self).registered == old(self).registered - 1,
            final(self).channel_open == old(self).channel_open,
    {
        self.registered = self.registered - 1;
    }

    /// Records that every sending handle to the request channel is gone; no
    /// further request can arrive, and the worker stops once drained.
    pub fn observe_channel_closed(&mut self)
        ensures
            final(self).registered == old(self).registered,
            !final(self).channel_open,
            old(self).registered == 0 ==> final(self).mode() is Stopped,
    {
        self.channel_open = false;
    }
}

/// Law: a caller abandoning its reply makes no difference to the worker:
/// settling a transfer whose outcome was discarded leaves the worker in
/// exactly the state that a delivered outcome would.
pub proof fn lemma_abandoned_caller_is_harmless(w: WorkerState)
    requires
        w.registered >= 1,
    ensures
        spec_settle(w, false) == spec_settle(w, true),
{
}

/// Law: a stopped worker has nothing registered and no way to receive
/// another request, so no transition out of the stopped state applies.
pub proof fn lemma_stopped_is_terminal(w: WorkerState)
    requires
        w.mode() is Stopped,
    ensures
        w.registered == 0,
        !w.channel_open,
{
}

} // verus!
