use std::time::Duration;

use curl::easy::{Easy2, Handler, WriteError};
use curl::multi::Multi;

use async_curl::actor::deliver_reply;
use async_curl::error::{EngineError, Error, MultiplexError};
use async_curl::poll::{
    drive_outcome, drive_rounds, last_completion_error, pause_slice, settle_completions,
    transfer_outcome, wait_interval, DriveProgress, DriveStep,
};
use async_curl::response_handler::ResponseHandler;

#[derive(Debug)]
struct Collector {
    inner: ResponseHandler,
}

impl Collector {
    fn new() -> Collector {
        Collector { inner: ResponseHandler::new() }
    }

    fn take_data(&mut self) -> Vec<u8> {
        std::mem::replace(&mut self.inner, ResponseHandler::new()).get_data()
    }
}

impl Handler for Collector {
    fn write(&mut self, data: &[u8]) -> Result<usize, WriteError> {
        Ok(self.inner.write_chunk(data))
    }
}

fn mux_err(e: curl::MultiError) -> MultiplexError {
    MultiplexError::new(e.code(), e.description().to_string())
}

fn eng_err(e: curl::Error) -> EngineError {
    EngineError::new(e.code(), e.description().to_string())
}

// The tests run with no network at hand, not even loopback, so the
// transfers below fetch local resources; such a transfer carries no HTTP
// status line, and only response bodies are asserted.

/// Lays down a local resource the engine can fetch without a network, and
/// hands back its location.
async fn publish_resource(name: &str, body: &str) -> String {
    let path = format!("/tmp/{}", name);
    tokio::fs::write(&path, body).await.unwrap();
    format!("file://{}", path)
}

/// Drives one transfer to completion on the calling thread through the
/// library's bounded driver.
fn perform_blocking(easy2: Easy2<Collector>) -> Result<Easy2<Collector>, Error> {
    let multi = Multi::new();
    let handle = multi.add2(easy2).map_err(|e| Error::Multi(mux_err(e)))?;
    loop {
        match drive_rounds(&multi, 600) {
            DriveProgress::Drained => break,
            DriveProgress::StillPending { .. } => continue,
            DriveProgress::Faulted(e) => return Err(Error::Multi(e)),
        }
    }
    let completion = settle_completions(&multi);
    transfer_outcome(completion, multi.remove2(handle).map_err(mux_err))
}

/// Drives one transfer to completion cooperatively, deciding each step
/// through the library and pausing only for the bounded slice it returns.
async fn perform_async(easy2: Easy2<Collector>) -> Result<Easy2<Collector>, Error> {
    let multi = Multi::new();
    let handle = multi.add2(easy2).map_err(|e| Error::Multi(mux_err(e)))?;
    loop {
        let drive = multi.perform().map_err(mux_err);
        match drive_outcome(drive) {
            DriveStep::Fail(e) => return Err(Error::Multi(e)),
            DriveStep::Drain => break,
            DriveStep::Wait { .. } => {
                let hint = multi
                    .get_timeout()
                    .map(|d| d.map(|d| d.as_millis() as u64))
                    .map_err(mux_err);
                let interval = match wait_interval(hint) {
                    Ok(i) => i,
                    Err(e) => return Err(Error::Multi(e)),
                };
                let pause = pause_slice(interval);
                if pause > 0 {
                    tokio::time::sleep(Duration::from_millis(pause)).await;
                }
            }
        }
    }
    let mut msgs: Vec<Option<Result<(), EngineError>>> = Vec::new();
    multi.messages(|m| msgs.push(m.result().map(|r| r.map_err(eng_err))));
    let completion = last_completion_error(msgs);
    transfer_outcome(completion, multi.remove2(handle).map_err(mux_err))
}

type Reply = tokio::sync::oneshot::Sender<Result<Easy2<Collector>, Error>>;

/// The cloneable front end of a worker task: a bounded request channel of
/// capacity one, a dedicated worker draining it, one reply channel per
/// request, each transfer driven on its own blocking-safe slot.
#[derive(Clone)]
struct TestActor {
    tx: tokio::sync::mpsc::Sender<(Easy2<Collector>, Reply)>,
}

fn spawn_actor() -> TestActor {
    let (tx, mut rx) = tokio::sync::mpsc::channel::<(Easy2<Collector>, Reply)>(1);
    tokio::spawn(async move {
        while let Some((easy2, reply)) = rx.recv().await {
            tokio::task::spawn_blocking(move || {
                let outcome = perform_blocking(easy2);
                // a dropped receiver hands the outcome back; discarding it
                // is the worker's whole reaction
                let _ = deliver_reply(reply, outcome);
            });
        }
    });
    TestActor { tx }
}

async fn send_request(
    actor: &TestActor,
    easy2: Easy2<Collector>,
) -> Result<Easy2<Collector>, Error> {
    let (otx, orx) = tokio::sync::oneshot::channel();
    if actor.tx.send((easy2, otx)).await.is_err() {
        return Err(Error::TokioSend);
    }
    match orx.await {
        Ok(outcome) => outcome,
        Err(_) => Err(Error::TokioRecv),
    }
}

fn runtime() -> tokio::runtime::Runtime {
    tokio::runtime::Builder::new_multi_thread()
        .worker_threads(2)
        .enable_all()
        .build()
        .unwrap()
}

#[test]
fn test_async_requests() {
    const MOCK_BODY_RESPONSE: &str = r#"{"token":"12345"}"#;

    let rt = runtime();
    rt.block_on(async {
        let url = publish_resource("async-test-shared", MOCK_BODY_RESPONSE).await;
        let actor = spawn_actor();

        let mut easy2 = Easy2::new(Collector::new());
        easy2.url(url.as_str()).unwrap();
        easy2.get(true).unwrap();

        let actor1 = actor.clone();
        let spawn1 = tokio::spawn(async move {
            let result = send_request(&actor1, easy2).await;
            let mut result = result.unwrap();
            assert_eq!(
                String::from_utf8_lossy(&result.get_mut().take_data()),
                MOCK_BODY_RESPONSE.to_string()
            );
        });

        let mut easy2 = Easy2::new(Collector::new());
        easy2.url(url.as_str()).unwrap();
        easy2.get(true).unwrap();

        let spawn2 = tokio::spawn(async move {
            let result = send_request(&actor, easy2).await;
            let mut result = result.unwrap();
            assert_eq!(
                String::from_utf8_lossy(&result.get_mut().take_data()),
                MOCK_BODY_RESPONSE.to_string()
            );
        });

        spawn1.await.unwrap();
        spawn2.await.unwrap();
    });
}

#[test]
fn concurrent_submissions_see_only_their_own_data() {
    let rt = runtime();
    rt.block_on(async {
        let url_one = publish_resource("crosstalk-one", "body of the first transfer").await;
        let url_two = publish_resource("crosstalk-two", "body of the second transfer").await;
        let actor = spawn_actor();

        let mut easy_one = Easy2::new(Collector::new());
        easy_one.url(url_one.as_str()).unwrap();
        easy_one.get(true).unwrap();

        let mut easy_two = Easy2::new(Collector::new());
        easy_two.url(url_two.as_str()).unwrap();
        easy_two.get(true).unwrap();

        let actor1 = actor.clone();
        let one = tokio::spawn(async move {
            let mut done = send_request(&actor1, easy_one).await.unwrap();
            assert_eq!(done.get_mut().take_data(), b"body of the first transfer".to_vec());
        });
        let two = tokio::spawn(async move {
            let mut done = send_request(&actor, easy_two).await.unwrap();
            assert_eq!(done.get_mut().take_data(), b"body of the second transfer".to_vec());
        });
        one.await.unwrap();
        two.await.unwrap();
    });
}

#[test]
fn test_error() {
    let url = "https://no-connection";

    let rt = runtime();
    rt.block_on(async {
        let actor = spawn_actor();
        let mut easy2 = Easy2::new(Collector::new());
        easy2.url(url).unwrap();
        easy2.get(true).unwrap();
        easy2.timeout(Duration::from_secs(8)).unwrap();

        let result = send_request(&actor, easy2).await;
        let _ = result.unwrap_err();
    });
}

#[test]
fn unreachable_host_resolves_to_the_engine_layer_in_bounded_time() {
    let rt = runtime();
    rt.block_on(async {
        let actor = spawn_actor();
        let mut easy2 = Easy2::new(Collector::new());
        easy2.url("https://no-connection").unwrap();
        easy2.get(true).unwrap();
        easy2.timeout(Duration::from_secs(8)).unwrap();

        let resolved =
            tokio::time::timeout(Duration::from_secs(15), send_request(&actor, easy2)).await;
        let outcome = resolved.expect("submit must resolve, not hang");
        match outcome {
            Err(e) => {
                assert!(e.is_engine_failure());
                assert!(matches!(e, Error::Curl(_)));
            }
            Ok(_) => panic!("a transfer to an unreachable host cannot succeed"),
        }
    });
}

#[test]
fn test_concurrency_abort() {
    const MOCK_BODY_RESPONSE: &str = r#"{"token":"12345"}"#;

    let rt = runtime();
    rt.block_on(async {
        let url = publish_resource("async-test-abort", MOCK_BODY_RESPONSE).await;
        let check_cancelled = std::sync::Arc::new(tokio::sync::Mutex::new(true));
        let actor = spawn_actor();

        let check_cancelled1 = check_cancelled.clone();
        let actor1 = actor.clone();
        let url1 = url.clone();
        let http_task = tokio::spawn(async move {
            // hold the submission in flight long enough to be aborted
            tokio::time::sleep(Duration::from_millis(200)).await;
            let mut easy2 = Easy2::new(Collector::new());
            easy2.url(url1.as_str()).unwrap();
            easy2.get(true).unwrap();
            let _ = send_request(&actor1, easy2).await.unwrap();
            let mut lock = check_cancelled1.lock().await;
            *lock = false;
        });

        let other_task = tokio::spawn(async {
            for _n in 0..10 {
                tokio::time::sleep(Duration::from_millis(50)).await;
            }
        });

        let abort_task = tokio::spawn(async move {
            http_task.abort();
        });

        other_task.await.unwrap();
        abort_task.await.unwrap();
        assert!(*check_cancelled.lock().await);

        // the worker survives the abandoned caller: a fresh submission on
        // the same actor still completes
        let mut easy2 = Easy2::new(Collector::new());
        easy2.url(url.as_str()).unwrap();
        easy2.get(true).unwrap();
        let mut result = send_request(&actor, easy2).await.unwrap();
        assert_eq!(
            String::from_utf8_lossy(&result.get_mut().take_data()),
            MOCK_BODY_RESPONSE.to_string()
        );
    });
}

#[test]
fn an_abandoned_reply_is_handed_back_and_the_worker_lives_on() {
    const MOCK_BODY_RESPONSE: &str = r#"{"token":"12345"}"#;

    let rt = runtime();
    rt.block_on(async {
        // delivery to a dropped receiver hands the very outcome back
        let (otx, orx) = tokio::sync::oneshot::channel::<Result<u32, Error>>();
        drop(orx);
        let undelivered = deliver_reply(otx, Ok(17u32));
        assert!(matches!(undelivered, Some(Ok(17))));

        // a submission whose caller walked away does not wedge the worker
        let url = publish_resource("async-test-walkaway", MOCK_BODY_RESPONSE).await;
        let actor = spawn_actor();
        let mut easy2 = Easy2::new(Collector::new());
        easy2.url(url.as_str()).unwrap();
        easy2.get(true).unwrap();
        let (otx, orx) = tokio::sync::oneshot::channel();
        actor.tx.send((easy2, otx)).await.unwrap();
        drop(orx);

        let mut easy2 = Easy2::new(Collector::new());
        easy2.url(url.as_str()).unwrap();
        easy2.get(true).unwrap();
        let mut result = send_request(&actor, easy2).await.unwrap();
        assert_eq!(
            String::from_utf8_lossy(&result.get_mut().take_data()),
            MOCK_BODY_RESPONSE.to_string()
        );
    });
}

#[test]
fn test_curl_builder() {
    const MOCK_BODY_RESPONSE: &str = r#"{"token":"12345"}"#;

    let rt = runtime();
    let (url, actor) = rt.block_on(async {
        let url = publish_resource("async-test-builder", MOCK_BODY_RESPONSE).await;
        (url, spawn_actor())
    });

    let client = async_curl::client::HttpClient::new(ResponseHandler::new());
    let finalized = client.url(url.as_str()).unwrap().get(true).unwrap().finalize();
    let (opts, _collector) = finalized.into_parts();

    // the submitting side applies the recorded description to the engine
    let mut easy2 = Easy2::new(Collector::new());
    easy2.url(opts.url.as_deref().unwrap()).unwrap();
    easy2.get(opts.get).unwrap();

    let mut curl = rt.block_on(send_request(&actor, easy2)).unwrap();
    let body = curl.get_mut().take_data();
    assert_eq!(body, MOCK_BODY_RESPONSE.as_bytes().to_vec());
}

#[test]
fn the_bounded_driver_completes_a_transfer() {
    const MOCK_BODY_RESPONSE: &str = r#"{"token":"12345"}"#;

    let rt = runtime();
    let url = rt.block_on(publish_resource("async-test-bounded", MOCK_BODY_RESPONSE));

    let mut easy2 = Easy2::new(Collector::new());
    easy2.url(url.as_str()).unwrap();
    easy2.get(true).unwrap();

    let mut done = perform_blocking(easy2).unwrap();
    assert_eq!(done.get_mut().take_data(), MOCK_BODY_RESPONSE.as_bytes().to_vec());
}

#[test]
fn the_cooperative_driver_completes_a_transfer() {
    const MOCK_BODY_RESPONSE: &str = r#"{"token":"12345"}"#;

    let rt = runtime();
    rt.block_on(async {
        let url = publish_resource("async-test-cooperative", MOCK_BODY_RESPONSE).await;
        let mut easy2 = Easy2::new(Collector::new());
        easy2.url(url.as_str()).unwrap();
        easy2.get(true).unwrap();
        let mut done = perform_async(easy2).await.unwrap();
        assert_eq!(done.get_mut().take_data(), MOCK_BODY_RESPONSE.as_bytes().to_vec());
    });
}

#[test]
fn an_empty_multiplexer_drains_at_once() {
    let multi = Multi::new();
    assert!(matches!(drive_rounds(&multi, 1), DriveProgress::Drained));
}

#[test]
fn a_missing_resource_is_a_per_transfer_engine_failure() {
    let mut easy2 = Easy2::new(Collector::new());
    easy2.url("file:///tmp/async-curl-no-such-resource").unwrap();
    easy2.get(true).unwrap();
    match perform_blocking(easy2) {
        Err(Error::Curl(e)) => assert!(!e.message.is_empty()),
        Err(other) => panic!("wrong layer reported: {:?}", other),
        Ok(_) => panic!("fetching a missing resource cannot succeed"),
    }
}

#[test]
fn many_concurrent_submissions_each_get_their_own_result() {
    let rt = runtime();
    rt.block_on(async {
        let actor = spawn_actor();
        let mut tasks: Vec<tokio::task::JoinHandle<()>> = Vec::new();
        for n in 0..8u32 {
            let body = format!("body of transfer number {}", n);
            let url =
                publish_resource(&format!("async-test-many-{}", n), &body).await;
            let actor = actor.clone();
            tasks.push(tokio::spawn(async move {
                let mut easy2 = Easy2::new(Collector::new());
                easy2.url(url.as_str()).unwrap();
                easy2.get(true).unwrap();
                let mut done = send_request(&actor, easy2).await.unwrap();
                assert_eq!(done.get_mut().take_data(), body.into_bytes());
            }));
        }
        for task in tasks {
            task.await.unwrap();
        }
    });
}
