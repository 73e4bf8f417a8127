use fbthrift_transport::configuration::AsyncTransportConfiguration;
use fbthrift_transport::error::CallError;
use fbthrift_transport::response_handler::ResponseHandler;
use fbthrift_transport::transport::{AsyncTransportRpcOptions, Call, CallStep};

/// A duplex stream double with cursor semantics: writes overwrite from the
/// current position (growing the buffer when they run past the end), reads
/// yield up to `max` bytes from the current position.
struct TestStream {
    data: Vec<u8>,
    pos: usize,
    reads: usize,
}

impl TestStream {
    fn new(data: &[u8]) -> Self {
        Self {
            data: data.to_vec(),
            pos: 0,
            reads: 0,
        }
    }

    fn write(&mut self, bytes: &[u8]) {
        for &b in bytes {
            if self.pos < self.data.len() {
                self.data[self.pos] = b;
            } else {
                self.data.push(b);
            }
            self.pos += 1;
        }
    }

    fn read(&mut self, max: usize) -> Vec<u8> {
        self.reads += 1;
        let n = std::cmp::min(max, self.data.len() - self.pos);
        let out = self.data[self.pos..self.pos + n].to_vec();
        self.pos += n;
        out
    }
}

/// Drive one call to completion against the stream double, the way the
/// scheduler would: write the request, then perform every read the call asks
/// for.
fn run_call<H: ResponseHandler>(
    stream: &mut TestStream,
    mut call: Call<H>,
) -> Result<Vec<u8>, CallError> {
    let buf_size = call.configuration().get_buf_size();
    stream.write(call.request_bytes().as_slice());
    let mut step = call.on_write_complete();
    loop {
        match step {
            CallStep::Read => {
                let data = stream.read(buf_size);
                step = call.on_read_complete(&data);
            }
            CallStep::Done(v) => return Ok(v),
            CallStep::Failed(e) => return Err(e),
        }
    }
}

#[derive(Clone)]
struct StaticResponseHandler;

impl ResponseHandler for StaticResponseHandler {
    fn try_make_static_response_bytes(
        &mut self,
        _service_name: &[u8],
        _fn_name: &[u8],
        request_bytes: &[u8],
    ) -> Result<Option<Vec<u8>>, CallError> {
        Ok(if request_bytes == b"static" {
            Some(b"bar".to_vec())
        } else {
            None
        })
    }

    fn parse_response_bytes(&mut self, _response_bytes: &[u8]) -> Result<Option<usize>, CallError> {
        unreachable!()
    }
}

#[derive(Clone)]
struct DynamicResponseHandler;

impl ResponseHandler for DynamicResponseHandler {
    fn try_make_static_response_bytes(
        &mut self,
        _service_name: &[u8],
        _fn_name: &[u8],
        request_bytes: &[u8],
    ) -> Result<Option<Vec<u8>>, CallError> {
        if request_bytes == b"dynamic" {
            Ok(None)
        } else {
            unreachable!()
        }
    }

    fn parse_response_bytes(&mut self, response_bytes: &[u8]) -> Result<Option<usize>, CallError> {
        if response_bytes == b"89012" {
            Ok(Some(2))
        } else {
            unreachable!()
        }
    }
}

#[derive(Clone)]
struct ChunkedResponseHandler;

impl ResponseHandler for ChunkedResponseHandler {
    fn try_make_static_response_bytes(
        &mut self,
        _service_name: &[u8],
        _fn_name: &[u8],
        request_bytes: &[u8],
    ) -> Result<Option<Vec<u8>>, CallError> {
        if request_bytes == b"dynamic" {
            Ok(None)
        } else {
            unreachable!()
        }
    }

    fn parse_response_bytes(&mut self, response_bytes: &[u8]) -> Result<Option<usize>, CallError> {
        match response_bytes {
            b"8" | b"89" | b"890" | b"8901" => Ok(None),
            b"89012" => Ok(Some(4)),
            _ => unreachable!(),
        }
    }
}

#[derive(Clone)]
struct IncompleteAbResponseHandler;

impl ResponseHandler for IncompleteAbResponseHandler {
    fn try_make_static_response_bytes(
        &mut self,
        _service_name: &[u8],
        _fn_name: &[u8],
        request_bytes: &[u8],
    ) -> Result<Option<Vec<u8>>, CallError> {
        if request_bytes == b"q" {
            Ok(None)
        } else {
            unreachable!()
        }
    }

    fn parse_response_bytes(&mut self, response_bytes: &[u8]) -> Result<Option<usize>, CallError> {
        if response_bytes == b"ab" {
            Ok(None)
        } else {
            unreachable!()
        }
    }
}

#[derive(Clone)]
struct NeverCompleteResponseHandler;

impl ResponseHandler for NeverCompleteResponseHandler {
    fn try_make_static_response_bytes(
        &mut self,
        _service_name: &[u8],
        _fn_name: &[u8],
        request_bytes: &[u8],
    ) -> Result<Option<Vec<u8>>, CallError> {
        if request_bytes == b"dynamic" {
            Ok(None)
        } else {
            unreachable!()
        }
    }

    fn parse_response_bytes(&mut self, response_bytes: &[u8]) -> Result<Option<usize>, CallError> {
        if response_bytes == b"" {
            Ok(None)
        } else {
            unreachable!()
        }
    }
}

fn new_call<H: ResponseHandler>(req: &[u8], c: AsyncTransportConfiguration<H>) -> Call<H> {
    Call::new(
        b"my_service".to_vec(),
        b"my_fn".to_vec(),
        req.to_vec(),
        AsyncTransportRpcOptions::default(),
        c,
    )
}

#[test]
fn transport_call_with_static_res() {
    let mut stream = TestStream::new(b"1234567890");
    let c = AsyncTransportConfiguration::new(StaticResponseHandler);

    let call = new_call(b"static", c);
    let out = run_call(&mut stream, call).expect("");
    assert_eq!(out, b"bar".to_vec());

    assert_eq!(stream.data, b"static7890".to_vec());
    // a short-circuited call performs zero reads against the stream
    assert_eq!(stream.reads, 0);
}

#[test]
fn transport_call_with_dynamic_res() {
    let mut stream = TestStream::new(b"123456789012");
    let c = AsyncTransportConfiguration::new(DynamicResponseHandler);

    let call = new_call(b"dynamic", c);
    let out = run_call(&mut stream, call).expect("");
    assert_eq!(out, b"89".to_vec());

    assert_eq!(stream.data, b"dynamic89012".to_vec());
}

#[test]
fn transport_call_with_dynamic_res_and_less_buf_size() {
    let mut stream = TestStream::new(b"123456789012");
    let mut c = AsyncTransportConfiguration::new(ChunkedResponseHandler);
    c.set_buf_size(1);
    c.set_max_parse_response_bytes_count(99);

    let call = new_call(b"dynamic", c);
    let out = run_call(&mut stream, call).expect("");
    assert_eq!(out, b"8901".to_vec());

    assert_eq!(stream.data, b"dynamic89012".to_vec());
}

#[test]
fn transport_call_with_dynamic_res_and_less_max_buf_size() {
    let mut stream = TestStream::new(b"123456789012");
    let mut c = AsyncTransportConfiguration::new(ChunkedResponseHandler);
    c.set_buf_size(1);
    c.set_max_buf_size(3);

    let call = new_call(b"dynamic", c);
    match run_call(&mut stream, call) {
        Ok(_) => panic!(),
        Err(err) => {
            assert!(err.message() == "Reach max buffer size");
        }
    }

    assert_eq!(stream.data, b"dynamic89012".to_vec());
}

#[test]
fn incomplete_parses_and_empty_reads_share_one_budget() {
    let mut stream = TestStream::new(b"qab");
    let mut c = AsyncTransportConfiguration::new(IncompleteAbResponseHandler);
    c.set_max_parse_response_bytes_count(2);

    let call = new_call(b"q", c);
    match run_call(&mut stream, call) {
        Ok(_) => panic!(),
        Err(err) => {
            assert!(err.message() == "Reach max parse response bytes count");
        }
    }

    // one incomplete parse ("ab") plus one tolerated empty read spend the
    // budget of two; the next empty read fails
    assert_eq!(stream.reads, 3);
}

#[test]
fn call_with_dynamic_res_and_too_many_read() {
    let mut stream = TestStream::new(b"");
    let c = AsyncTransportConfiguration::new(NeverCompleteResponseHandler);

    let call = new_call(b"dynamic", c);
    match run_call(&mut stream, call) {
        Ok(_) => panic!(),
        Err(err) => {
            assert!(err.message() == "Reach max parse response bytes count");
        }
    }

    assert_eq!(stream.data, b"dynamic".to_vec());
    // the default stall budget of three tolerates three empty reads and
    // fails on the fourth
    assert_eq!(stream.reads, 4);
}
