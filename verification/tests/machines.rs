use async_curl::actor::{submit_step, SubmitEvent, SubmitState, WorkerMode, WorkerState};
use async_curl::error::{EngineError, Error};

#[test]
fn accepted_send_moves_to_awaiting() {
    let next: SubmitState<u32> = submit_step(SubmitState::Sending, SubmitEvent::SendAccepted);
    assert!(matches!(next, SubmitState::AwaitingReply));
}

#[test]
fn rejected_send_resolves_to_the_send_failure() {
    let next: SubmitState<u32> = submit_step(SubmitState::Sending, SubmitEvent::SendRejected);
    assert!(matches!(next, SubmitState::Resolved(Err(Error::TokioSend))));
}

#[test]
fn delivered_reply_resolves_to_that_very_outcome() {
    let next: SubmitState<u32> = submit_step(
        SubmitState::AwaitingReply,
        SubmitEvent::ReplyDelivered(Ok(17)),
    );
    match next {
        SubmitState::Resolved(Ok(v)) => assert_eq!(v, 17),
        _ => panic!("the resolved outcome must be the delivered reply"),
    }
}

#[test]
fn delivered_failure_resolves_to_that_failure() {
    let own_failure: Result<u32, Error> =
        Err(Error::Curl(EngineError::new(7, String::from("could not connect"))));
    let next = submit_step(SubmitState::AwaitingReply, SubmitEvent::ReplyDelivered(own_failure));
    match next {
        SubmitState::Resolved(Err(Error::Curl(e))) => assert_eq!(e.code, 7),
        _ => panic!("the resolved outcome must be the delivered failure"),
    }
}

#[test]
fn dropped_sender_resolves_to_the_receive_failure() {
    let next: SubmitState<u32> =
        submit_step(SubmitState::AwaitingReply, SubmitEvent::SenderDropped);
    assert!(matches!(next, SubmitState::Resolved(Err(Error::TokioRecv))));
}

#[test]
fn worker_walks_idle_draining_idle_stopped() {
    let mut w = WorkerState::new();
    assert_eq!(w.registered, 0);
    assert!(w.channel_open);
    assert!(matches!(w.current_mode(), WorkerMode::Idle));

    w.accept_request();
    w.accept_request();
    assert_eq!(w.registered, 2);
    assert!(matches!(w.current_mode(), WorkerMode::Draining));

    w.settle_transfer(true);
    // a discarded delivery settles exactly like a delivered one
    w.settle_transfer(false);
    assert_eq!(w.registered, 0);
    assert!(w.channel_open);
    assert!(matches!(w.current_mode(), WorkerMode::Idle));

    w.observe_channel_closed();
    assert!(!w.channel_open);
    assert_eq!(w.registered, 0);
    assert!(matches!(w.current_mode(), WorkerMode::Stopped));
}

#[test]
fn worker_keeps_draining_after_channel_close() {
    let mut w = WorkerState::new();
    w.accept_request();
    w.observe_channel_closed();
    assert_eq!(w.registered, 1);
    assert!(!w.channel_open);
    assert!(matches!(w.current_mode(), WorkerMode::Draining));
    w.settle_transfer(false);
    assert_eq!(w.registered, 0);
    assert!(matches!(w.current_mode(), WorkerMode::Stopped));
}
