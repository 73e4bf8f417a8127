use vstd::prelude::*;

use crate::error::CallError;

verus! {

/// The pluggable policy a call consults about its response bytes.
///
/// A handler answers two questions: can this request be answered without
/// touching the network at all, and has enough of the response arrived to
/// call it one complete frame. Each call runs against its own clone of the
/// handler, so a handler must be cheaply duplicable; it may carry state of
/// its own, which both operations are free to update.
///
/// The two spec functions fix, for a given handler state, what the matching
/// executable operation answers; every verified implementation is held to
/// them, and the call state machine's contracts are stated over them.
pub trait ResponseHandler: Sized + Clone {
    /// What `try_make_static_response_bytes` answers in this handler state:
    /// `Ok(Some(bytes))` for a synthesized response, `Ok(None)` to proceed to
    /// the network, `Err` to fail the call.
    ///
    /// Left at its default, the answer is unspecified and nothing can be
    /// proved about an implementation that keeps it; every implementation in
    /// this crate gives its own.
    open spec fn static_response_spec(
        &self,
        service_name: Seq<u8>,
        fn_name: Seq<u8>,
        request_bytes: Seq<u8>,
    ) -> Result<Option<Seq<u8>>, CallError> {
        arbitrary()
    }

    /// What `parse_response_bytes` answers in this handler state:
    /// `Ok(Some(n))` when the leading `n` bytes form one complete frame,
    /// `Ok(None)` when more bytes are needed, `Err` to fail the call.
    ///
    /// Left at its default, the answer is unspecified, as above.
    open spec fn parse_response_spec(&self, response_bytes: Seq<u8>) -> Result<
        Option<int>,
        CallError,
    > {
        arbitrary()
    }

    /// An optional display name for the handler.
    fn name(&self) -> (r: Option<&str>) {
        None
    }

    /// Given the call's identity and the exact request bytes just written,
    /// optionally synthesize a complete response without any I/O. Returning
    /// `Ok(Some(_))` short-circuits the call entirely; `Ok(None)` means
    /// "proceed normally"; an error fails the call.
    fn try_make_static_response_bytes(
        &mut self,
        service_name: &[u8],
        fn_name: &[u8],
        request_bytes: &[u8],
    ) -> (r: Result<Option<Vec<u8>>, CallError>)
        ensures
            (match (r, old(self).static_response_spec(service_name@, fn_name@, request_bytes@)) {
                (Ok(Some(b)), Ok(Some(s))) => b@ == s,
                (Ok(None), Ok(None)) => true,
                (Err(e), Err(s)) => e == s,
                _ => false,
            }),
    ;

    /// Given everything read so far for this response, report `Ok(Some(n))`
    /// if the leading `n` bytes form one complete response frame (bytes past
    /// `n` are discarded by the call), or `Ok(None)` if more bytes are
    /// needed; an error fails the call.
    fn parse_response_bytes(&mut self, response_bytes: &[u8]) -> (r: Result<
        Option<usize>,
        CallError,
    >)
        ensures
            (match (r, old(self).parse_response_spec(response_bytes@)) {
                (Ok(Some(n)), Ok(Some(m))) => n as int == m && n <= response_bytes@.len(),
                (Ok(None), Ok(None)) => true,
                (Err(e), Err(s)) => e == s,
                _ => false,
            }),
    ;
}

/// The pass-through handler: it never short-circuits, and it treats the
/// whole accumulated buffer as one complete frame on the first non-empty
/// read. Suitable when the transport below already delivers exactly one
/// message per read.
#[derive(Clone)]
pub struct DefaultResponseHandler;

impl ResponseHandler for DefaultResponseHandler {
    open spec fn static_response_spec(
        &self,
        service_name: Seq<u8>,
        fn_name: Seq<u8>,
        request_bytes: Seq<u8>,
    ) -> Result<Option<Seq<u8>>, CallError> {
        Ok(None)
    }

    open spec fn parse_response_spec(&self, response_bytes: Seq<u8>) -> Result<
        Option<int>,
        CallError,
    > {
        Ok(Some(response_bytes.len() as int))
    }

    fn try_make_static_response_bytes(
        &mut self,
        service_name: &[u8],
        fn_name: &[u8],
        request_bytes: &[u8],
    ) -> (r: Result<Option<Vec<u8>>, CallError>) {
        Ok(None)
    }

    fn parse_response_bytes(&mut self, response_bytes: &[u8]) -> (r: Result<
        Option<usize>,
        CallError,
    >) {
        Ok(Some(response_bytes.len()))
    }
}

/// A test double with the same behaviour as the pass-through handler: it
/// never short-circuits and reports the whole current buffer as one complete
/// frame, which exercises the call state machine independently of any real
/// framing logic.
#[derive(Debug, Clone, Copy)]
pub struct MockResponseHandler;

impl ResponseHandler for MockResponseHandler {
    open spec fn static_response_spec(
        &self,
        service_name: Seq<u8>,
        fn_name: Seq<u8>,
        request_bytes: Seq<u8>,
    ) -> Result<Option<Seq<u8>>, CallError> {
        Ok(None)
    }

    open spec fn parse_response_spec(&self, response_bytes: Seq<u8>) -> Result<
        Option<int>,
        CallError,
    > {
        Ok(Some(response_bytes.len() as int))
    }

    fn name(&self) -> (r: Option<&str>)
        ensures
            (match r {
                Some(s) => s@ == "Mock"@,
                None => false,
            }),
    {
        Some("Mock")
    }

    fn try_make_static_response_bytes(
        &mut self,
        service_name: &[u8],
        fn_name: &[u8],
        request_bytes: &[u8],
    ) -> (r: Result<Option<Vec<u8>>, CallError>) {
        Ok(None)
    }

    fn parse_response_bytes(&mut self, response_bytes: &[u8]) -> (r: Result<
        Option<usize>,
        CallError,
    >) {
        Ok(Some(response_bytes.len()))
    }
}

} // verus!
