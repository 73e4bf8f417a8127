use vstd::prelude::*;

use crate::configuration::{config_params_eq, AsyncTransportConfiguration, ConfigView};
use crate::error::CallError;
use crate::model::{read_transition, ReadState, StepView};
use crate::response_handler::ResponseHandler;

verus! {

/// Per-call options of the surrounding RPC framework. None are defined; the
/// type exists so the call surface can grow without changing signatures.
#[derive(Debug, Clone, Default)]
pub struct AsyncTransportRpcOptions {}

/// The write-then-read phase of a call.
#[derive(Debug, Clone, Copy, PartialEq, Eq, Structural)]
pub enum CallState {
    /// The request has not been fully written yet.
    Pending,
    /// The request is on the wire; the response is being read.
    Writed,
}

/// What the call asks of its scheduler after one resumption step.
#[derive(Debug)]
pub enum CallStep {
    /// Issue one read of up to `buf_size` bytes, bounded by the read
    /// timeout, and report the outcome through `on_read_complete`.
    Read,
    /// The call completed; these are exactly the bytes of one response
    /// frame.
    Done(Vec<u8>),
    /// The call failed; the error is final and nothing is retried.
    Failed(CallError),
}

impl View for CallStep {
    type V = StepView;

    open spec fn view(&self) -> StepView {
        match self {
            CallStep::Read => StepView::Read,
            CallStep::Done(b) => StepView::Done(b@),
            CallStep::Failed(e) => StepView::Failed(*e),
        }
    }
}

/// The mathematical view of a call in progress.
pub struct CallView<H> {
    /// The identity of the target operation: its service name.
    pub service_name: Seq<u8>,
    /// The identity of the target operation: its function name.
    pub fn_name: Seq<u8>,
    /// The full request byte sequence, fixed for the call's lifetime.
    pub req: Seq<u8>,
    /// The configuration snapshot the call runs under.
    pub configuration: ConfigView<H>,
    /// The current phase.
    pub state: CallState,
    /// The response bytes accumulated so far.
    pub buf: Seq<u8>,
    /// The non-productive read iterations spent so far.
    pub count: u8,
}

/// One call against a transport's stream: write the request, then read,
/// accumulate and frame-delimit the response under the configured caps.
///
/// The call never touches the stream itself. The surrounding scheduler owns
/// the I/O: it writes the request bytes, reports completion through
/// [`Call::on_write_complete`], performs each read the call asks for, and
/// reports the bytes through [`Call::on_read_complete`]; the call answers
/// with the next [`CallStep`]. Construction has no side effects.
pub struct Call<H> where H: ResponseHandler {
    service_name: Vec<u8>,
    fn_name: Vec<u8>,
    req: Vec<u8>,
    #[allow(dead_code)]
    rpc_options: AsyncTransportRpcOptions,
    configuration: AsyncTransportConfiguration<H>,
    state: CallState,
    buf_storage: Vec<u8>,
    parsed_response_bytes_count: u8,
}

impl<H: ResponseHandler> View for Call<H> {
    type V = CallView<H>;

    closed spec fn view(&self) -> CallView<H> {
        CallView {
            service_name: self.service_name@,
            fn_name: self.fn_name@,
            req: self.req@,
            configuration: self.configuration@,
            state: self.state,
            buf: self.buf_storage@,
            count: self.parsed_response_bytes_count,
        }
    }
}

/// Append the bytes of `data` to `buf`, in order.
fn extend_with(buf: &mut Vec<u8>, data: &[u8])
    ensures
        final(buf)@ == old(buf)@ + data@,
{
    let mut i: usize = 0;
    while i < data.len()
        invariant
            i <= data@.len(),
            buf@ == old(buf)@ + data@.subrange(0, i as int),
        decreases data@.len() - i,
    {
        buf.push(data[i]);
        i = i + 1;
    }
    proof {
        assert(data@.subrange(0, data@.len() as int) =~= data@);
    }
}

impl<H> Call<H> where H: ResponseHandler {
    /// A call bound to the given identity, request bytes and configuration
    /// snapshot. Nothing happens until the scheduler has written the request
    /// and reports so through [`Call::on_write_complete`].
    pub fn new(
        service_name: Vec<u8>,
        fn_name: Vec<u8>,
        req: Vec<u8>,
        rpc_options: AsyncTransportRpcOptions,
        configuration: AsyncTransportConfiguration<H>,
    ) -> (call: Self)
        ensures
            call@.service_name == service_name@,
            call@.fn_name == fn_name@,
            call@.req == req@,
            call@.configuration == configuration@,
            call@.state == CallState::Pending,
            call@.buf == Seq::<u8>::empty(),
            call@.count == 0,
    {
        let max_buf_size = configuration.get_max_buf_size();
        Self {
            service_name,
            fn_name,
            req,
            rpc_options,
            configuration,
            state: CallState::Pending,
            buf_storage: Vec::with_capacity(max_buf_size),
            parsed_response_bytes_count: 0,
        }
    }

    /// Whether the next scheduler step is (still) writing the request.
    pub fn needs_write(&self) -> (r: bool)
        ensures
            r == (self@.state == CallState::Pending),
    {
        self.state == CallState::Pending
    }

    /// The request bytes this call writes.
    pub fn request_bytes(&self) -> (r: &Vec<u8>)
        ensures
            r@ == self@.req,
    {
        &self.req
    }

    /// The configuration snapshot this call runs under.
    pub fn configuration(&self) -> (r: &AsyncTransportConfiguration<H>)
        ensures
            r@ == self@.configuration,
    {
        &self.configuration
    }

    /// Step the call once the whole request has been written.
    ///
    /// This consults the handler's short-circuit check exactly once, before
    /// any read: a synthesized response completes the call with exactly
    /// those bytes and no read is asked for; `None` moves the call into its
    /// read phase; a handler error fails the call, propagated unchanged.
    pub fn on_write_complete(&mut self) -> (step: CallStep)
        requires
            old(self)@.state == CallState::Pending,
            old(self)@.buf.len() == 0,
        ensures
            final(self)@.state == CallState::Writed,
            final(self)@.buf == old(self)@.buf,
            final(self)@.count == old(self)@.count,
            final(self)@.service_name == old(self)@.service_name,
            final(self)@.fn_name == old(self)@.fn_name,
            final(self)@.req == old(self)@.req,
            config_params_eq(final(self)@.configuration, old(self)@.configuration),
            (match old(self)@.configuration.response_handler.static_response_spec(
                old(self)@.service_name,
                old(self)@.fn_name,
                old(self)@.req,
            ) {
                Ok(Some(b)) => step@ == StepView::Done(b),
                Ok(None) => step@ == StepView::Read,
                Err(e) => step@ == StepView::Failed(e),
            }),
    {
        self.state = CallState::Writed;
        let r = self.configuration.response_handler.try_make_static_response_bytes(
            self.service_name.as_slice(),
            self.fn_name.as_slice(),
            self.req.as_slice(),
        );
        match r {
            Err(e) => CallStep::Failed(e),
            Ok(Some(b)) => CallStep::Done(b),
            Ok(None) => CallStep::Read,
        }
    }

    /// Step the call after one read attempt yielded `data` (possibly
    /// nothing).
    ///
    /// An empty read spends one unit of the stall budget and retries, unless
    /// the budget is already spent, which fails the call. A non-empty read
    /// is appended to the accumulation buffer, in order, and the handler is
    /// asked to parse the whole buffer: a completed frame of `n` bytes
    /// finishes the call with exactly the first `n` bytes accumulated
    /// (anything past `n` is dropped); an incomplete frame fails the call on
    /// the capacity ceiling, or spends one unit of the stall budget like an
    /// empty read; a handler error fails the call, propagated unchanged.
    pub fn on_read_complete(&mut self, data: &[u8]) -> (step: CallStep)
        requires
            old(self)@.state == CallState::Writed,
        ensures
            final(self)@.state == old(self)@.state,
            final(self)@.service_name == old(self)@.service_name,
            final(self)@.fn_name == old(self)@.fn_name,
            final(self)@.req == old(self)@.req,
            config_params_eq(final(self)@.configuration, old(self)@.configuration),
            data@.len() == 0 ==> final(self)@.configuration == old(self)@.configuration,
            ({
                let r = read_transition(
                    ReadState { buf: old(self)@.buf, count: old(self)@.count as int },
                    data@,
                    old(self)@.configuration.response_handler.parse_response_spec(
                        old(self)@.buf + data@,
                    ),
                    old(self)@.configuration.max_buf_size as int,
                    old(self)@.configuration.max_parse_response_bytes_count as int,
                );
                &&& final(self)@.buf == r.0.buf
                &&& final(self)@.count as int == r.0.count
                &&& step@ == r.1
            }),
    {
        if data.len() == 0 {
            if self.parsed_response_bytes_count
                >= self.configuration.get_max_parse_response_bytes_count() {
                CallStep::Failed(CallError::ReachMaxParseResponseBytesCount)
            } else {
                self.parsed_response_bytes_count = self.parsed_response_bytes_count + 1;
                CallStep::Read
            }
        } else {
            extend_with(&mut self.buf_storage, data);
            let r = self.configuration.response_handler.parse_response_bytes(
                self.buf_storage.as_slice(),
            );
            match r {
                Err(e) => CallStep::Failed(e),
                Ok(Some(n)) => {
                    let mut out: Vec<u8> = Vec::new();
                    let mut j: usize = 0;
                    while j < n
                        invariant
                            j <= n,
                            n <= self.buf_storage@.len(),
                            out@ == self.buf_storage@.subrange(0, j as int),
                        decreases n - j,
                    {
                        out.push(self.buf_storage[j]);
                        j = j + 1;
                    }
                    CallStep::Done(out)
                },
                Ok(None) => {
                    if self.buf_storage.len() >= self.configuration.get_max_buf_size() {
                        CallStep::Failed(CallError::ReachMaxBufferSize)
                    } else if self.parsed_response_bytes_count
                        >= self.configuration.get_max_parse_response_bytes_count() {
                        CallStep::Failed(CallError::ReachMaxParseResponseBytesCount)
                    } else {
                        self.parsed_response_bytes_count = self.parsed_response_bytes_count + 1;
                        CallStep::Read
                    }
                },
            }
        }
    }
}

} // verus!
