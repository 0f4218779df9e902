use vstd::prelude::*;

verus! {

/// The multiplexer's code for "call the driving operation again at once".
pub const CALL_DRIVE_AGAIN: i32 = -1;

/// A per-transfer failure reported by the transfer engine, carried as plain
/// values: the engine's numeric code and its human-readable description.
#[derive(Debug, PartialEq, Eq)]
pub struct EngineError {
    pub code: u32,
    pub message: String,
}

impl EngineError {
    /// Builds a per-transfer failure record from its code and description.
    pub fn new(code: u32, message: String) -> (r: EngineError)
        ensures
            r.code == code,
            r.message == message,
    {
        EngineError { code, message }
    }
}

/// A failure of the engine's multiplexer itself, carried as plain values:
/// the multiplexer's numeric code and its human-readable description.
#[derive(Debug, PartialEq, Eq)]
pub struct MultiplexError {
    pub code: i32,
    pub message: String,
}

impl MultiplexError {
    /// Builds a multiplexer failure record from its code and description.
    pub fn new(code: i32, message: String) -> (r: MultiplexError)
        ensures
            r.code == code,
            r.message == message,
    {
        MultiplexError { code, message }
    }

    /// Whether this failure only asks the caller to drive the multiplexer
    /// again immediately, rather than reporting a real fault.
    pub open spec fn spec_is_call_perform(&self) -> bool {
        self.code == CALL_DRIVE_AGAIN
    }

    /// Whether this failure only asks the caller to drive the multiplexer
    /// again immediately, rather than reporting a real fault.
    pub fn is_call_perform(&self) -> (r: bool)
        ensures
            r == self.spec_is_call_perform(),
    {
        self.code == CALL_DRIVE_AGAIN
    }
}

/// The error taxonomy of the bridge: a per-transfer engine failure, a
/// multiplexer failure, the reply channel's sender having been dropped
/// without a reply, or the request channel being closed.
#[derive(Debug)]
pub enum Error {
    Curl(EngineError),
    Multi(MultiplexError),
    TokioRecv,
    TokioSend,
}

impl Error {
    /// A one-line account of which layer failed and why.
    pub fn describe(&self) -> (r: String)
        ensures
            self matches Error::Curl(e) ==> r == e.message,
            self matches Error::Multi(e) ==> r == e.message,
            self is TokioRecv ==> r@ == "the reply channel closed before a reply arrived"@,
            self is TokioSend ==> r@ == "the request channel is closed"@,
    {
        match self {
            Error::Curl(e) => e.message.clone(),
            Error::Multi(e) => e.message.clone(),
            Error::TokioRecv => "the reply channel closed before a reply arrived".to_owned(),
            Error::TokioSend => "the request channel is closed".to_owned(),
        }
    }

    /// Whether this error came from the engine side (a transfer or
    /// multiplexer fault) rather than from the channel protocol.
    pub open spec fn spec_is_engine_failure(&self) -> bool {
        self is Curl || self is Multi
    }

    /// Whether this error came from the engine side (a transfer or
    /// multiplexer fault) rather than from the channel protocol.
    pub fn is_engine_failure(&self) -> (r: bool)
        ensures
            r == self.spec_is_engine_failure(),
    {
        match self {
            Error::Curl(_) => true,
            Error::Multi(_) => true,
            Error::TokioRecv => false,
            Error::TokioSend => false,
        }
    }
}

impl From<EngineError> for Error {
    /// Wraps a per-transfer engine failure in the taxonomy.
    fn from(err: EngineError) -> (r: Error) {
        Error::Curl(err)
    }
}

impl vstd::std_specs::convert::FromSpecImpl<EngineError> for Error {
    open spec fn obeys_from_spec() -> bool {
        true
    }

    open spec fn from_spec(err: EngineError) -> Error {
        Error::Curl(err)
    }
}

impl From<MultiplexError> for Error {
    /// Wraps a multiplexer failure in the taxonomy.
    fn from(err: MultiplexError) -> (r: Error) {
        Error::Multi(err)
    }
}

impl vstd::std_specs::convert::FromSpecImpl<MultiplexError> for Error {
    open spec fn obeys_from_spec() -> bool {
        true
    }

    open spec fn from_spec(err: MultiplexError) -> Error {
        Error::Multi(err)
    }
}

/// A flattened error that keeps only a textual account of the failure.
#[derive(Debug)]
pub struct AsyncCurlError(pub String);

impl From<MultiplexError> for AsyncCurlError {
    /// Flattens a multiplexer failure to its human-readable description.
    /// Deliberately so: the flattened error keeps the engine's own account
    /// of the fault, not a debug-style rendering of the record around it.
    fn from(err: MultiplexError) -> (r: AsyncCurlError) {
        AsyncCurlError(err.message)
    }
}

impl vstd::std_specs::convert::FromSpecImpl<MultiplexError> for AsyncCurlError {
    open spec fn obeys_from_spec() -> bool {
        true
    }

    open spec fn from_spec(err: MultiplexError) -> AsyncCurlError {
        AsyncCurlError(err.message)
    }
}

impl From<EngineError> for AsyncCurlError {
    /// Flattens a per-transfer engine failure to its human-readable
    /// description. Deliberately so: the flattened error keeps the engine's
    /// own account of the fault, not a debug-style rendering of the record
    /// around it.
    fn from(err: EngineError) -> (r: AsyncCurlError) {
        AsyncCurlError(err.message)
    }
}

impl vstd::std_specs::convert::FromSpecImpl<EngineError> for AsyncCurlError {
    open spec fn obeys_from_spec() -> bool {
        true
    }

    open spec fn from_spec(err: EngineError) -> AsyncCurlError {
        AsyncCurlError(err.message)
    }
}

} // verus!
