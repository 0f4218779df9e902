use vstd::prelude::*;

use crate::error::{EngineError, MultiplexError};

verus! {

/// The transfer engine's multiplexer, which holds registered transfers and
/// drives all of them forward together. Opaque here: everything the library
/// learns of it comes back as plain values through the wrappers below.
#[verifier::external_type_specification]
#[verifier::external_body]
pub struct ExMulti(curl::multi::Multi);

/// The sending half of a single-use reply channel.
#[verifier::external_type_specification]
#[verifier::external_body]
#[verifier::reject_recursive_types(T)]
pub struct ExOneshotSender<T>(tokio::sync::oneshot::Sender<T>);

/// Relies on curl::multi::Multi::perform: drives every registered transfer
/// forward without blocking on any single one and reports how many are still
/// running. How many remain depends on the network, so nothing is promised
/// of the count.
#[verifier::external_body]
pub(crate) fn multi_perform(multi: &curl::multi::Multi) -> (r: Result<u32, MultiplexError>) {
    match multi.perform() {
        Ok(n) => Ok(n),
        Err(e) => Err(MultiplexError { code: e.code(), message: e.description().to_string() }),
    }
}

/// Relies on curl::multi::Multi::get_timeout: reports, in milliseconds, how
/// long the engine suggests waiting before driving again, or None when it
/// has no stored suggestion. The suggestion depends on the transfers'
/// momentary state, so nothing is promised of it.
#[verifier::external_body]
pub(crate) fn multi_get_timeout(multi: &curl::multi::Multi) -> (r: Result<
    Option<u64>,
    MultiplexError,
>) {
    match multi.get_timeout() {
        Ok(d) => Ok(d.map(|d| d.as_millis() as u64)),
        Err(e) => Err(MultiplexError { code: e.code(), message: e.description().to_string() }),
    }
}

/// Relies on curl::multi::Multi::wait: blocks until the engine sees activity
/// on some transfer or the given number of milliseconds passes, and reports
/// how many descriptors saw events. Activity depends on the network, so
/// nothing is promised of the count.
#[verifier::external_body]
pub(crate) fn multi_wait(multi: &curl::multi::Multi, millis: u64) -> (r: Result<
    u32,
    MultiplexError,
>) {
    match multi.wait(&mut [], std::time::Duration::from_millis(millis)) {
        Ok(n) => Ok(n),
        Err(e) => Err(MultiplexError { code: e.code(), message: e.description().to_string() }),
    }
}

/// Relies on curl::multi::Multi::messages and curl::multi::Message::result:
/// hands out the engine's queued informationals in queue order, each mapped
/// to plain values: None for one that does not report a finished transfer,
/// and otherwise that transfer's terminal outcome. Which messages are queued
/// depends on the transfers, so nothing is promised of the contents.
#[verifier::external_body]
pub(crate) fn multi_collect_completions(multi: &curl::multi::Multi) -> (r: Vec<
    Option<Result<(), EngineError>>,
>) {
    let mut out = Vec::new();
    multi.messages(|m| {
        out.push(m.result().map(|res| res.map_err(|e| EngineError {
            code: e.code(),
            message: e.description().to_string(),
        })));
    });
    out
}

/// Relies on tokio::sync::oneshot::Sender::send: consuming the sender, so at
/// most one value is ever sent on the channel; when the receiving half is
/// already gone the very value handed in comes back unreceived.
#[verifier::external_body]
pub(crate) fn oneshot_send<T>(sender: tokio::sync::oneshot::Sender<T>, value: T) -> (r: Result<
    (),
    T,
>)
    ensures
        r matches Err(v) ==> v == value,
{
    sender.send(value)
}

} // verus!
