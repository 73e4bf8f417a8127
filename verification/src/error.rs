use vstd::prelude::*;

verus! {

/// A failure that terminates one call.
///
/// Every failure is fatal for the call it belongs to: nothing is retried
/// inside the transport, and the caller owns any higher-level retry decision.
#[derive(Debug, Clone, PartialEq)]
pub enum CallError {
    /// The accumulated response bytes reached the configured ceiling without
    /// a completed frame.
    ReachMaxBufferSize,
    /// The budget of non-productive read iterations (empty reads plus
    /// incomplete parses) was exhausted.
    ReachMaxParseResponseBytesCount,
    /// The response handler itself reported a failure; carried unchanged.
    Handler(String),
}

impl CallError {
    /// The message text of this error.
    pub open spec fn message_spec(&self) -> Seq<char> {
        match self {
            CallError::ReachMaxBufferSize => "Reach max buffer size"@,
            CallError::ReachMaxParseResponseBytesCount => "Reach max parse response bytes count"@,
            CallError::Handler(m) => m@,
        }
    }

    /// The message text of this error, for surfacing to the caller.
    pub fn message(&self) -> (s: String)
        ensures
            s@ == self.message_spec(),
    {
        match self {
            CallError::ReachMaxBufferSize => "Reach max buffer size".to_owned(),
            CallError::ReachMaxParseResponseBytesCount => "Reach max parse response bytes count".to_owned(),
            CallError::Handler(m) => m.clone(),
        }
    }
}

} // verus!
