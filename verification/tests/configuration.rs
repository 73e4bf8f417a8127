use fbthrift_transport::configuration::{
    AsyncTransportConfiguration, DefaultAsyncTransportConfiguration,
};
use fbthrift_transport::response_handler::MockResponseHandler;

#[test]
fn with_default() {
    let c: DefaultAsyncTransportConfiguration = Default::default();

    assert_eq!(c.get_buf_size(), 1024);
    assert_eq!(c.get_read_timeout(), 5000);
    assert_eq!(c.get_max_parse_response_bytes_count(), 3);
}

#[test]
fn test_get_and_set() {
    let mut c = AsyncTransportConfiguration::new(MockResponseHandler);

    assert_eq!(c.get_buf_size(), 1024);
    assert_eq!(c.get_max_buf_size(), 1024 * 4);
    assert_eq!(c.get_read_timeout(), 5000);
    assert_eq!(c.get_max_parse_response_bytes_count(), 3);

    c.set_buf_size(1024 * 2);
    assert_eq!(c.get_buf_size(), 1024 * 2);
    c.set_max_buf_size(1024 * 3);
    assert_eq!(c.get_max_buf_size(), 1024 * 3);
    c.set_read_timeout(3000);
    assert_eq!(c.get_read_timeout(), 3000);
    c.set_max_parse_response_bytes_count(2);
    assert_eq!(c.get_max_parse_response_bytes_count(), 2);
}
