use chain_network::poll::Async;
use chain_network::server::{poll_connection, H2Error, ServerError, Source};

fn http2() -> h2::Error {
    h2::Error::from(h2::Reason::PROTOCOL_ERROR)
}

#[test]
fn errors_in_words() {
    let io = ServerError::from(std::io::Error::new(std::io::ErrorKind::Other, "broken"));
    assert_eq!(io.message(), "I/O error: broken");
    let text = http2().to_string();
    assert_eq!(
        ServerError::Http2Handshake(http2()).message(),
        format!("HTTP/2 handshake error: {}", text)
    );
    assert_eq!(
        ServerError::Http2Protocol(http2()).message(),
        format!("HTTP/2 protocol error: {}", text)
    );
    assert_eq!(
        ServerError::NewService(http2()).message(),
        format!("service creation error: {}", text)
    );
    assert_eq!(
        ServerError::Service(http2()).message(),
        format!("error returned by service: {}", text)
    );
    assert_eq!(ServerError::Execute.message(), "task execution error");
}

#[test]
fn words_around_a_detail() {
    assert_eq!(
        ServerError::Service(http2()).message_with("x"),
        "error returned by service: x"
    );
    assert_eq!(ServerError::Execute.message_with("x"), "task execution error");
}

#[test]
fn failures_become_errors_of_their_kind() {
    assert!(matches!(
        ServerError::from(H2Error::Handshake(http2())),
        ServerError::Http2Handshake(_)
    ));
    assert!(matches!(
        ServerError::from(H2Error::Protocol(http2())),
        ServerError::Http2Protocol(_)
    ));
    assert!(matches!(
        ServerError::from(H2Error::NewService(http2())),
        ServerError::NewService(_)
    ));
    assert!(matches!(ServerError::from(H2Error::Service(http2())), ServerError::Service(_)));
    assert!(matches!(ServerError::from(H2Error::Execute), ServerError::Execute));
}

#[test]
fn errors_keep_their_source() {
    let io = ServerError::from(std::io::Error::new(std::io::ErrorKind::Other, "broken"));
    assert!(matches!(io.source(), Some(Source::Io(_))));
    match ServerError::from(H2Error::Protocol(http2())).source() {
        Some(Source::Http2(err)) => {
            assert_eq!(err.reason(), Some(h2::Reason::PROTOCOL_ERROR));
        }
        _ => panic!("another source"),
    }
    assert!(matches!(ServerError::NewService(http2()).source(), Some(Source::Http2(_))));
    assert!(matches!(ServerError::Service(http2()).source(), Some(Source::Http2(_))));
    assert!(matches!(ServerError::Http2Handshake(http2()).source(), Some(Source::Http2(_))));
    assert!(ServerError::Execute.source().is_none());
}

#[test]
fn serving_a_peer() {
    assert!(matches!(poll_connection(Ok(Async::NotReady)), Ok(Async::NotReady)));
    assert!(matches!(poll_connection(Ok(Async::Ready(()))), Ok(Async::Ready(()))));
    assert!(matches!(
        poll_connection(Err(H2Error::Service(http2()))),
        Err(ServerError::Service(_))
    ));
}
