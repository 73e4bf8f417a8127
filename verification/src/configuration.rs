use vstd::prelude::*;

use crate::response_handler::{DefaultResponseHandler, ResponseHandler};

verus! {

/// The sizing, timeout and retry-budget parameters one call runs under,
/// together with the response handler that interprets the response bytes.
///
/// A transport hands every call its own clone, so the values are fixed for
/// the whole of a call; mutation only happens between calls.
#[derive(Clone)]
pub struct AsyncTransportConfiguration<H> where H: ResponseHandler {
    pub(crate) buf_size: usize,
    pub(crate) max_buf_size: usize,
    pub(crate) read_timeout_ms: u64,
    pub(crate) max_parse_response_bytes_count: u8,
    pub(crate) response_handler: H,
}

/// The mathematical view of a configuration: the four parameters and the
/// handler state.
pub struct ConfigView<H> {
    /// Bytes requested per read attempt.
    pub buf_size: usize,
    /// Hard ceiling on response buffer growth.
    pub max_buf_size: usize,
    /// Deadline for a single read attempt, in milliseconds.
    pub read_timeout_ms: u64,
    /// Budget of non-productive read iterations before aborting.
    pub max_parse_response_bytes_count: u8,
    /// The pluggable response handler.
    pub response_handler: H,
}

/// Whether two configuration views carry the same four parameters; the
/// handler state is allowed to differ, since handlers may update state of
/// their own whenever one of their operations runs.
pub open spec fn config_params_eq<H>(a: ConfigView<H>, b: ConfigView<H>) -> bool {
    &&& a.buf_size == b.buf_size
    &&& a.max_buf_size == b.max_buf_size
    &&& a.read_timeout_ms == b.read_timeout_ms
    &&& a.max_parse_response_bytes_count == b.max_parse_response_bytes_count
}

impl<H: ResponseHandler> View for AsyncTransportConfiguration<H> {
    type V = ConfigView<H>;

    open(crate) spec fn view(&self) -> ConfigView<H> {
        ConfigView {
            buf_size: self.buf_size,
            max_buf_size: self.max_buf_size,
            read_timeout_ms: self.read_timeout_ms,
            max_parse_response_bytes_count: self.max_parse_response_bytes_count,
            response_handler: self.response_handler,
        }
    }
}

impl<H> AsyncTransportConfiguration<H> where H: ResponseHandler {
    /// A configuration with the documented defaults: 1024-byte read chunks,
    /// a 4096-byte accumulation ceiling, a five-second read timeout and a
    /// stall budget of three.
    pub fn new(response_handler: H) -> (c: Self)
        ensures
            c@.buf_size == 1024,
            c@.max_buf_size == 4096,
            c@.read_timeout_ms == 5000,
            c@.max_parse_response_bytes_count == 3,
            c@.response_handler == response_handler,
    {
        Self {
            buf_size: 1024,
            max_buf_size: 4096,
            read_timeout_ms: 5000,
            max_parse_response_bytes_count: 3,
            response_handler,
        }
    }

    /// Set how many bytes one read attempt asks for; it must not pass the
    /// accumulation ceiling.
    pub fn set_buf_size(&mut self, size: usize)
        requires
            size <= old(self)@.max_buf_size,
        ensures
            final(self)@ == (ConfigView { buf_size: size, ..old(self)@ }),
    {
        self.buf_size = size;
    }

    /// How many bytes one read attempt asks for.
    pub fn get_buf_size(&self) -> (size: usize)
        ensures
            size == self@.buf_size,
    {
        self.buf_size
    }

    /// Set the hard ceiling on response buffer growth; it must cover at
    /// least one read chunk.
    pub fn set_max_buf_size(&mut self, size: usize)
        requires
            size >= old(self)@.buf_size,
        ensures
            final(self)@ == (ConfigView { max_buf_size: size, ..old(self)@ }),
    {
        self.max_buf_size = size;
    }

    /// The hard ceiling on response buffer growth.
    pub fn get_max_buf_size(&self) -> (size: usize)
        ensures
            size == self@.max_buf_size,
    {
        self.max_buf_size
    }

    /// Set the deadline for a single read attempt, in milliseconds; it must
    /// not be zero.
    pub fn set_read_timeout(&mut self, timeout_ms: u32)
        requires
            timeout_ms > 0,
        ensures
            final(self)@ == (ConfigView { read_timeout_ms: timeout_ms as u64, ..old(self)@ }),
    {
        self.read_timeout_ms = timeout_ms as u64;
    }

    /// The deadline for a single read attempt, in milliseconds.
    pub fn get_read_timeout(&self) -> (timeout_ms: u64)
        ensures
            timeout_ms == self@.read_timeout_ms,
    {
        self.read_timeout_ms
    }

    /// Set the budget of non-productive read iterations; it must not be
    /// zero.
    pub fn set_max_parse_response_bytes_count(&mut self, size: u8)
        requires
            size > 0,
        ensures
            final(self)@ == (ConfigView {
                max_parse_response_bytes_count: size,
                ..old(self)@
            }),
    {
        self.max_parse_response_bytes_count = size;
    }

    /// The budget of non-productive read iterations before a call aborts.
    pub fn get_max_parse_response_bytes_count(&self) -> (size: u8)
        ensures
            size == self@.max_parse_response_bytes_count,
    {
        self.max_parse_response_bytes_count
    }
}

/// The configuration most transports start from: the documented defaults
/// with the pass-through handler.
pub type DefaultAsyncTransportConfiguration = AsyncTransportConfiguration<DefaultResponseHandler>;

impl Default for AsyncTransportConfiguration<DefaultResponseHandler> {
    /// The default configuration: the documented defaults with the
    /// pass-through handler.
    fn default() -> (c: Self)
        ensures
            c@.buf_size == 1024,
            c@.max_buf_size == 4096,
            c@.read_timeout_ms == 5000,
            c@.max_parse_response_bytes_count == 3,
    {
        Self::new(DefaultResponseHandler)
    }
}

} // verus!
