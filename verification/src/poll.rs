use vstd::prelude::*;

use crate::engine::{multi_collect_completions, multi_get_timeout, multi_perform, multi_wait};
use crate::error::{EngineError, Error, MultiplexError};

verus! {

/// Wait this many milliseconds when the engine cannot suggest an interval.
pub const DEFAULT_WAIT_MILLIS: u64 = 2000;

/// Pause at most this many milliseconds per iteration of the driving loop,
/// however long the engine's suggested interval is, so the loop stays
/// responsive to newly arriving requests.
pub const POLL_SLICE_MILLIS: u64 = 200;

/// The bounded wait used per iteration when driving on a dedicated thread.
pub const BLOCKING_WAIT_MILLIS: u64 = 1000;

/// What one driving step decided: keep waiting on still-pending transfers,
/// drain the completion queue because none are pending, or abort the
/// transfer with the multiplexer's fault.
pub enum DriveStep {
    Wait { pending: u32 },
    Drain,
    Fail(MultiplexError),
}

/// The decision taken after one driving call: pending transfers mean another
/// round of waiting, none pending means the completion queue is drained, and
/// a multiplexer fault ends the transfer.
pub open spec fn spec_drive_outcome(drive: Result<u32, MultiplexError>) -> DriveStep {
    match drive {
        Result::Ok(n) => if n == 0 {
            DriveStep::Drain
        } else {
            DriveStep::Wait { pending: n }
        },
        Result::Err(e) => DriveStep::Fail(e),
    }
}

/// Decides the next step from what the driving call reported.
pub fn drive_outcome(drive: Result<u32, MultiplexError>) -> (r: DriveStep)
    ensures
        r == spec_drive_outcome(drive),
{
    match drive {
        Result::Ok(n) => if n == 0 {
            DriveStep::Drain
        } else {
            DriveStep::Wait { pending: n }
        },
        Result::Err(e) => DriveStep::Fail(e),
    }
}

/// The wait interval taken from the engine's suggestion: the suggestion
/// itself when there is one, the bounded default when the engine has none,
/// no wait at all when the engine merely asks to be driven again, and the
/// fault itself when the suggestion call failed for any other reason.
pub open spec fn spec_wait_interval(hint: Result<Option<u64>, MultiplexError>) -> Result<
    u64,
    MultiplexError,
> {
    match hint {
        Result::Ok(suggestion) => match suggestion {
            Option::Some(millis) => Result::Ok(millis),
            Option::None => Result::Ok(DEFAULT_WAIT_MILLIS),
        },
        Result::Err(e) => if e.spec_is_call_perform() {
            Result::Ok(0)
        } else {
            Result::Err(e)
        },
    }
}

/// Decides how long to wait before driving again from the engine's
/// suggestion.
pub fn wait_interval(hint: Result<Option<u64>, MultiplexError>) -> (r: Result<
    u64,
    MultiplexError,
>)
    ensures
        r == spec_wait_interval(hint),
{
    match hint {
        Result::Ok(suggestion) => match suggestion {
            Option::Some(millis) => Result::Ok(millis),
            Option::None => Result::Ok(DEFAULT_WAIT_MILLIS),
        },
        Result::Err(e) => if e.is_call_perform() {
            Result::Ok(0)
        } else {
            Result::Err(e)
        },
    }
}

/// The pause actually taken in one loop iteration: nothing when the engine
/// wants to be driven again at once, and otherwise one bounded slice of the
/// interval rather than the whole of it.
pub open spec fn spec_pause_slice(interval: u64) -> u64 {
    if interval == 0 {
        0
    } else {
        POLL_SLICE_MILLIS
    }
}

/// Decides the pause for one loop iteration. The result never exceeds
/// `POLL_SLICE_MILLIS`, so no single pause can stall the loop for long,
/// whatever interval the engine suggested.
pub fn pause_slice(interval: u64) -> (r: u64)
    ensures
        r == spec_pause_slice(interval),
        r <= POLL_SLICE_MILLIS,
{
    if interval == 0 {
        0
    } else {
        POLL_SLICE_MILLIS
    }
}

/// The terminal error of a drained completion queue: the error of the
/// latest finished transfer that reported one, and nothing when every
/// reported completion succeeded.
pub open spec fn spec_last_completion_error(msgs: Seq<Option<Result<(), EngineError>>>) -> Option<
    EngineError,
>
    decreases msgs.len(),
{
    if msgs.len() == 0 {
        Option::None
    } else {
        match msgs.last() {
            Option::Some(outcome) => match outcome {
                Result::Err(e) => Option::Some(e),
                Result::Ok(_) => spec_last_completion_error(msgs.drop_last()),
            },
            Option::None => spec_last_completion_error(msgs.drop_last()),
        }
    }
}

/// Extracts from a drained completion queue the error kept by the driving
/// loop: the latest reported failure, if any completion failed.
#[verifier::loop_isolation(false)]
pub fn last_completion_error(msgs: Vec<Option<Result<(), EngineError>>>) -> (r: Option<
    EngineError,
>)
    ensures
        r == spec_last_completion_error(msgs@),
{
    let ghost orig = msgs@;
    let mut rest = msgs;
    loop
        invariant
            spec_last_completion_error(rest@) == spec_last_completion_error(orig),
        decreases rest@.len(),
    {
        match rest.pop() {
            Option::None => {
                return Option::None;
            },
            Option::Some(m) => {
                match m {
                    Option::Some(outcome) => match outcome {
                        Result::Err(e) => {
                            return Option::Some(e);
                        },
                        Result::Ok(_) => {},
                    },
                    Option::None => {},
                }
            },
        }
    }
}

/// Law: the drained queue's verdict is silent exactly when no reported
/// completion failed, and a kept failure is one that some completion in
/// the queue really reported.
pub proof fn lemma_completion_error_characterized(msgs: Seq<Option<Result<(), EngineError>>>)
    ensures
        spec_last_completion_error(msgs) is None <==> (forall|i: int|
            0 <= i < msgs.len() ==> !(#[trigger] msgs[i] matches Option::Some(Result::Err(_)))),
        spec_last_completion_error(msgs) matches Option::Some(e) ==> (exists|i: int|
            0 <= i < msgs.len() && #[trigger] msgs[i] == Option::Some(
                Result::<(), EngineError>::Err(e),
            )),
    decreases msgs.len(),
{
    if msgs.len() == 0 {
    } else {
        lemma_completion_error_characterized(msgs.drop_last());
        assert(forall|i: int|
            0 <= i < msgs.len() - 1 ==> #[trigger] msgs.drop_last()[i] == msgs[i]);
        assert(forall|i: int|
            0 <= i < msgs.len() - 1 ==> #[trigger] msgs[i] == msgs.drop_last()[i]);
        match msgs.last() {
            Option::Some(outcome) => match outcome {
                Result::Err(e) => {
                    assert(msgs[msgs.len() - 1] == Option::Some(
                        Result::<(), EngineError>::Err(e),
                    ));
                },
                Result::Ok(_) => {
                    assert(!(msgs[msgs.len() - 1] matches Option::Some(Result::Err(_))));
                },
            },
            Option::None => {
                assert(!(msgs[msgs.len() - 1] matches Option::Some(Result::Err(_))));
            },
        }
    }
}

/// Maps the outcome of taking a finished transfer back out of the
/// multiplexer into the taxonomy: the transfer comes back unchanged on
/// success, and a multiplexer fault is reported as such.
pub fn removal_outcome<T>(removal: Result<T, MultiplexError>) -> (r: Result<T, Error>)
    ensures
        removal matches Ok(t) ==> r matches Ok(u) && u == t,
        removal matches Err(e) ==> r == Result::<T, Error>::Err(Error::Multi(e)),
{
    match removal {
        Result::Ok(t) => Result::Ok(t),
        Result::Err(e) => Result::Err(Error::Multi(e)),
    }
}

/// The outcome the worker produces for one settled transfer, composed from
/// the kept completion failure and the removal result: a reported transfer
/// failure takes precedence, then a removal fault, and otherwise the
/// transfer comes back unchanged. Every failure produced here is an
/// engine-side failure: a worker-delivered outcome is never one of the
/// channel-protocol errors, which are reserved for a gone worker.
pub fn transfer_outcome<T>(
    completion: Option<EngineError>,
    removal: Result<T, MultiplexError>,
) -> (r: Result<T, Error>)
    ensures
        completion matches Some(e) ==> r == Result::<T, Error>::Err(Error::Curl(e)),
        completion is None ==> (removal matches Ok(t) ==> r matches Ok(u) && u == t),
        completion is None ==> (removal matches Err(e) ==> r == Result::<T, Error>::Err(
            Error::Multi(e),
        )),
        r matches Err(e) ==> e.spec_is_engine_failure(),
{
    match completion {
        Option::Some(e) => Result::Err(Error::Curl(e)),
        Option::None => removal_outcome(removal),
    }
}

/// How far a bounded driving episode got: every transfer settled, the
/// round budget ran out with transfers still pending, or the multiplexer
/// reported a fault.
pub enum DriveProgress {
    Drained,
    StillPending { pending: u32 },
    Faulted(MultiplexError),
}

/// The wait actually handed to the engine in one blocking round: the
/// decided interval itself when it is short, and `BLOCKING_WAIT_MILLIS`
/// otherwise.
pub open spec fn spec_bounded_wait(interval: u64) -> u64 {
    if interval < BLOCKING_WAIT_MILLIS {
        interval
    } else {
        BLOCKING_WAIT_MILLIS
    }
}

/// Caps the wait handed to the engine in one blocking round. The result
/// never exceeds `BLOCKING_WAIT_MILLIS`, so no single blocking wait is
/// unbounded, whatever interval was decided.
pub fn bounded_wait(interval: u64) -> (r: u64)
    ensures
        r == spec_bounded_wait(interval),
        r <= BLOCKING_WAIT_MILLIS,
{
    if interval < BLOCKING_WAIT_MILLIS {
        interval
    } else {
        BLOCKING_WAIT_MILLIS
    }
}

/// Drives the multiplexer's registered transfers on the calling thread,
/// making at most `rounds` driving calls. Between rounds it asks the engine
/// for its suggested interval, decides through `wait_interval` what that
/// suggestion means, and hands the engine at most `BLOCKING_WAIT_MILLIS` of
/// it through `bounded_wait`, so one call pauses for a bounded time in all;
/// a caller that wants to keep driving calls it again. What comes back
/// depends on the network, so beyond the progress report only this much is
/// promised: an exhausted budget still had at least one transfer pending.
pub fn drive_rounds(multi: &curl::multi::Multi, rounds: u64) -> (r: DriveProgress)
    requires
        rounds >= 1,
    ensures
        r matches (DriveProgress::StillPending { pending }) ==> pending >= 1,
{
    let mut left = rounds;
    loop
        invariant
            left >= 1,
        decreases left,
    {
        match drive_outcome(multi_perform(multi)) {
            DriveStep::Fail(e) => {
                return DriveProgress::Faulted(e);
            },
            DriveStep::Drain => {
                return DriveProgress::Drained;
            },
            DriveStep::Wait { pending } => {
                left = left - 1;
                if left == 0 {
                    return DriveProgress::StillPending { pending };
                }
                let interval = match wait_interval(multi_get_timeout(multi)) {
                    Result::Ok(i) => i,
                    Result::Err(e) => {
                        return DriveProgress::Faulted(e);
                    },
                };
                if interval > 0 {
                    match multi_wait(multi, bounded_wait(interval)) {
                        Result::Ok(_) => {},
                        Result::Err(e) => {
                            return DriveProgress::Faulted(e);
                        },
                    }
                }
            },
        }
    }
}

/// Drains the multiplexer's completion queue and reports the error the
/// driving loop keeps: the latest failure among the reported completions,
/// or nothing when every reported completion succeeded.
pub fn settle_completions(multi: &curl::multi::Multi) -> (r: Option<EngineError>) {
    let msgs = multi_collect_completions(multi);
    last_completion_error(msgs)
}

} // verus!
