use fbthrift_transport::response_handler::{
    DefaultResponseHandler, MockResponseHandler, ResponseHandler,
};

#[test]
fn with_default_response_handler() {
    let mut h = DefaultResponseHandler;

    assert_eq!(
        h.try_make_static_response_bytes(b"my_service", b"my_fn", &b""[..]),
        Ok(None)
    );

    assert_eq!(h.parse_response_bytes(&b"foo"[..]), Ok(Some(3)));
}

#[test]
fn test_mock_response_handler() {
    let mut h = MockResponseHandler;

    assert_eq!(
        h.try_make_static_response_bytes(b"my_service", b"my_fn", &b""[..]),
        Ok(None)
    );

    assert_eq!(h.parse_response_bytes(&b"foo"[..]), Ok(Some(3)));
}

#[test]
fn handler_names() {
    assert_eq!(MockResponseHandler.name(), Some("Mock"));
    assert_eq!(DefaultResponseHandler.name(), None);
}
