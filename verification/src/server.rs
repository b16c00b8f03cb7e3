//! The gRPC server of the node: what can go wrong in serving a client peer.
use crate::poll::Async;
use vstd::prelude::*;
use vstd::string::{to_string_from_display_ensures, StringExecFns};

verus! {

/// The error type for gRPC server operations.
#[derive(Debug)]
pub enum ServerError {
    Io(std::io::Error),
    Http2Handshake(h2::Error),
    Http2Protocol(h2::Error),
    NewService(h2::Error),
    Service(h2::Error),
    Execute,
}

/// How the HTTP/2 connection of a client peer failed.
#[derive(Debug)]
pub enum H2Error {
    /// In the handshake.
    Handshake(h2::Error),
    /// In the protocol.
    Protocol(h2::Error),
    /// In making the service.
    NewService(h2::Error),
    /// In the service.
    Service(h2::Error),
    /// In starting a task.
    Execute,
}

/// A reference to the error underneath a [`ServerError`].
#[derive(Debug)]
pub enum Source<'a> {
    Io(&'a std::io::Error),
    Http2(&'a h2::Error),
}

impl From<std::io::Error> for ServerError {
    fn from(err: std::io::Error) -> (error: Self) {
        ServerError::Io(err)
    }
}

impl vstd::std_specs::convert::FromSpecImpl<std::io::Error> for ServerError {
    open spec fn obeys_from_spec() -> bool {
        true
    }

    open spec fn from_spec(err: std::io::Error) -> Self {
        ServerError::Io(err)
    }
}

/// The error of the server that a failure of the HTTP/2 connection becomes.
pub open spec fn server_error(failure: H2Error) -> ServerError {
    match failure {
        H2Error::Handshake(e) => ServerError::Http2Handshake(e),
        H2Error::Protocol(e) => ServerError::Http2Protocol(e),
        H2Error::NewService(e) => ServerError::NewService(e),
        H2Error::Service(e) => ServerError::Service(e),
        H2Error::Execute => ServerError::Execute,
    }
}

impl From<H2Error> for ServerError {
    fn from(err: H2Error) -> (error: Self) {
        match err {
            H2Error::Handshake(e) => ServerError::Http2Handshake(e),
            H2Error::Protocol(e) => ServerError::Http2Protocol(e),
            H2Error::NewService(e) => ServerError::NewService(e),
            H2Error::Service(e) => ServerError::Service(e),
            H2Error::Execute => ServerError::Execute,
        }
    }
}

impl vstd::std_specs::convert::FromSpecImpl<H2Error> for ServerError {
    open spec fn obeys_from_spec() -> bool {
        true
    }

    open spec fn from_spec(err: H2Error) -> Self {
        server_error(err)
    }
}

impl ServerError {
    /// The error underneath, if there is one.
    pub open spec fn underlying(&self) -> Option<Source<'_>> {
        match self {
            ServerError::Io(e) => Some(Source::Io(e)),
            ServerError::Http2Handshake(e) => Some(Source::Http2(e)),
            ServerError::Http2Protocol(e) => Some(Source::Http2(e)),
            ServerError::NewService(e) => Some(Source::Http2(e)),
            ServerError::Service(e) => Some(Source::Http2(e)),
            ServerError::Execute => None,
        }
    }

    /// Returns the error underneath, if there is one.
    pub fn source(&self) -> (source: Option<Source<'_>>)
        ensures
            source == self.underlying(),
    {
        match self {
            ServerError::Io(e) => Some(Source::Io(e)),
            ServerError::Http2Handshake(e) => Some(Source::Http2(e)),
            ServerError::Http2Protocol(e) => Some(Source::Http2(e)),
            ServerError::NewService(e) => Some(Source::Http2(e)),
            ServerError::Service(e) => Some(Source::Http2(e)),
            ServerError::Execute => None,
        }
    }

    /// The error in words, given the words of the error underneath.
    pub open spec fn words(self, detail: Seq<char>) -> Seq<char> {
        match self {
            ServerError::Io(_) => "I/O error: "@ + detail,
            ServerError::Http2Handshake(_) => "HTTP/2 handshake error: "@ + detail,
            ServerError::Http2Protocol(_) => "HTTP/2 protocol error: "@ + detail,
            ServerError::NewService(_) => "service creation error: "@ + detail,
            ServerError::Service(_) => "error returned by service: "@ + detail,
            ServerError::Execute => "task execution error"@,
        }
    }

    /// Returns the error in words, given the words of the error underneath.
    pub fn message_with(&self, detail: &str) -> (text: String)
        ensures
            text@ == self.words(detail@),
    {
        match self {
            ServerError::Io(_) => "I/O error: ".to_owned().concat(detail),
            ServerError::Http2Handshake(_) => "HTTP/2 handshake error: ".to_owned().concat(detail),
            ServerError::Http2Protocol(_) => "HTTP/2 protocol error: ".to_owned().concat(detail),
            ServerError::NewService(_) => "service creation error: ".to_owned().concat(detail),
            ServerError::Service(_) => "error returned by service: ".to_owned().concat(detail),
            ServerError::Execute => "task execution error".to_owned(),
        }
    }

    /// The words are those of the error underneath.
    pub open spec fn describes(self, detail: String) -> bool {
        match self {
            ServerError::Io(e) => to_string_from_display_ensures(&e, detail),
            ServerError::Http2Handshake(e) => to_string_from_display_ensures(&e, detail),
            ServerError::Http2Protocol(e) => to_string_from_display_ensures(&e, detail),
            ServerError::NewService(e) => to_string_from_display_ensures(&e, detail),
            ServerError::Service(e) => to_string_from_display_ensures(&e, detail),
            ServerError::Execute => true,
        }
    }

    /// Returns the error in words.
    pub fn message(&self) -> (text: String)
        ensures
            exists|detail: String| #[trigger]
                self.describes(detail) && text@ == self.words(detail@),
    {
        let detail: String = match self {
            ServerError::Io(e) => e.to_string(),
            ServerError::Http2Handshake(e) => e.to_string(),
            ServerError::Http2Protocol(e) => e.to_string(),
            ServerError::NewService(e) => e.to_string(),
            ServerError::Service(e) => e.to_string(),
            ServerError::Execute => String::new(),
        };
        assert(self.describes(detail));
        self.message_with(detail.as_str())
    }
}

/// Nothing is lost when a failure of the HTTP/2 connection becomes an error of the
/// server: the error underneath is the one that the failure came with, and
/// different failures become different errors.
pub proof fn law_failures_are_kept(failure: H2Error, other: H2Error)
    ensures
        server_error(failure).underlying() == match failure {
            H2Error::Handshake(e) => Some(Source::Http2(&e)),
            H2Error::Protocol(e) => Some(Source::Http2(&e)),
            H2Error::NewService(e) => Some(Source::Http2(&e)),
            H2Error::Service(e) => Some(Source::Http2(&e)),
            H2Error::Execute => None,
        },
        server_error(failure) == server_error(other) ==> failure == other,
{
}

/// Makes of what the HTTP/2 connection of a client peer gave what serving that
/// peer gives.
pub fn poll_connection(polled: Result<Async<()>, H2Error>) -> (result: Result<Async<()>, ServerError>)
    ensures
        match polled {
            Ok(progress) => result == Ok::<Async<()>, ServerError>(progress),
            Err(err) => result == Err::<Async<()>, ServerError>(server_error(err)),
        },
{
    match polled {
        Ok(progress) => Ok(progress),
        Err(err) => Err(ServerError::from(err)),
    }
}

/// An error in words: what kind it is, and then the words of the error underneath
/// letter for letter, if there is one.
pub proof fn law_words_name_kind_and_detail(error: &ServerError, detail: &str, text: String)
    requires
        call_ensures(ServerError::message_with, (error, detail), text),
    ensures
        match *error {
            ServerError::Io(_) => text@ == "I/O error: "@ + detail@,
            ServerError::Http2Handshake(_) => text@ == "HTTP/2 handshake error: "@ + detail@,
            ServerError::Http2Protocol(_) => text@ == "HTTP/2 protocol error: "@ + detail@,
            ServerError::NewService(_) => text@ == "service creation error: "@ + detail@,
            ServerError::Service(_) => text@ == "error returned by service: "@ + detail@,
            ServerError::Execute => text@ == "task execution error"@,
        },
{
}

/// An error in words carries the words that the error underneath has for itself.
pub proof fn law_messages_carry_the_words_underneath(error: &ServerError, text: String)
    requires
        call_ensures(ServerError::message, (error,), text),
    ensures
        match *error {
            ServerError::Io(e) => exists|detail: String| #[trigger]
                to_string_from_display_ensures(&e, detail) && text@ == "I/O error: "@ + detail@,
            ServerError::Http2Handshake(e) => exists|detail: String| #[trigger]
                to_string_from_display_ensures(&e, detail) && text@ == "HTTP/2 handshake error: "@
                    + detail@,
            ServerError::Http2Protocol(e) => exists|detail: String| #[trigger]
                to_string_from_display_ensures(&e, detail) && text@ == "HTTP/2 protocol error: "@
                    + detail@,
            ServerError::NewService(e) => exists|detail: String| #[trigger]
                to_string_from_display_ensures(&e, detail) && text@ == "service creation error: "@
                    + detail@,
            ServerError::Service(e) => exists|detail: String| #[trigger]
                to_string_from_display_ensures(&e, detail) && text@
                    == "error returned by service: "@ + detail@,
            ServerError::Execute => text@ == "task execution error"@,
        },
{
    let detail = choose|detail: String| #[trigger]
        error.describes(detail) && text@ == error.words(detail@);
    match *error {
        ServerError::Io(e) => assert(to_string_from_display_ensures(&e, detail)),
        ServerError::Http2Handshake(e) => assert(to_string_from_display_ensures(&e, detail)),
        ServerError::Http2Protocol(e) => assert(to_string_from_display_ensures(&e, detail)),
        ServerError::NewService(e) => assert(to_string_from_display_ensures(&e, detail)),
        ServerError::Service(e) => assert(to_string_from_display_ensures(&e, detail)),
        ServerError::Execute => {},
    }
}

/// The error underneath is the one that the error was made with.
pub proof fn law_the_source_is_what_is_underneath<'a>(
    error: &'a ServerError,
    source: Option<Source<'a>>,
)
    requires
        call_ensures(ServerError::source, (error,), source),
    ensures
        source is None <==> *error is Execute,
        match *error {
            ServerError::Io(e) => source == Some(Source::Io(&e)),
            ServerError::Http2Handshake(e)
            | ServerError::Http2Protocol(e)
            | ServerError::NewService(e)
            | ServerError::Service(e) => source == Some(Source::Http2(&e)),
            ServerError::Execute => true,
        },
{
}

/// Serving a peer gives what its HTTP/2 connection gave: it waits and ends as that
/// does, and fails with an error that says where that failed and holds what that
/// failed with.
pub proof fn law_serving_gives_what_the_connection_gave(
    polled: Result<Async<()>, H2Error>,
    result: Result<Async<()>, ServerError>,
)
    requires
        call_ensures(poll_connection, (polled,), result),
    ensures
        result is Ok <==> polled is Ok,
        polled matches Ok(progress) ==> result->Ok_0 == progress,
        polled matches Err(failure) ==> match (failure, result->Err_0) {
            (H2Error::Handshake(e), ServerError::Http2Handshake(kept)) => kept == e,
            (H2Error::Protocol(e), ServerError::Http2Protocol(kept)) => kept == e,
            (H2Error::NewService(e), ServerError::NewService(kept)) => kept == e,
            (H2Error::Service(e), ServerError::Service(kept)) => kept == e,
            (H2Error::Execute, ServerError::Execute) => true,
            _ => false,
        },
{
}

/// The same conversions hold of errors that are turned into errors of the server
/// directly: each becomes the kind that it is, with what it holds.
pub proof fn law_errors_become_their_kind(
    io: std::io::Error,
    from_io: ServerError,
    failure: H2Error,
    from_failure: ServerError,
)
    requires
        call_ensures(<ServerError as From<std::io::Error>>::from, (io,), from_io),
        call_ensures(<ServerError as From<H2Error>>::from, (failure,), from_failure),
    ensures
        from_io == ServerError::Io(io),
        match (failure, from_failure) {
            (H2Error::Handshake(e), ServerError::Http2Handshake(kept)) => kept == e,
            (H2Error::Protocol(e), ServerError::Http2Protocol(kept)) => kept == e,
            (H2Error::NewService(e), ServerError::NewService(kept)) => kept == e,
            (H2Error::Service(e), ServerError::Service(kept)) => kept == e,
            (H2Error::Execute, ServerError::Execute) => true,
            _ => false,
        },
{
}

} // verus!
