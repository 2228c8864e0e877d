//! What the gRPC transport knows of endpoints.

use std::time::Duration;

use vstd::prelude::*;
use vstd::string::*;

use crate::mailbox::{Mailbox, MailboxView, Offer};
use crate::text::{contains_text, is_contained};
use crate::time::duration_nanos;
use crate::transport::inmem::{transport_outcome, transport_result};
use crate::transport::{Endpoint, TransportError};
use crate::transport_protocol::Envelope;

verus! {

/// The messages that a connection holds before it refuses more.
pub const TRANSPORT_CHANNEL_CAPACITY: usize = 1024;

/// The gRPC transport.
#[derive(Clone, Copy)]
pub struct GrpcTransport {
    pub transport_connect_timeout: Duration,
}

impl GrpcTransport {
    /// The side that only accepts connections.
    pub fn server() -> (transport: Self)
        ensures
            duration_nanos(transport.transport_connect_timeout) == 0,
    {
        GrpcTransport { transport_connect_timeout: Duration::from_secs(0) }
    }

    /// The side that connects, within the given time.
    pub fn new(transport_connect_timeout: Duration) -> (transport: Self)
        ensures
            transport.transport_connect_timeout == transport_connect_timeout,
    {
        GrpcTransport { transport_connect_timeout }
    }
}

/// What keeps a connection from being made.
pub enum ConnectFailure {
    /// It was not made in time.
    TimedOut,
    /// The transport reported this.
    Reported(String),
}

/// The error of a connection that could not be made.
pub fn connect_error(failure: ConnectFailure) -> (error: TransportError)
    ensures
        error matches TransportError::ConnectFailed(detail) && detail@ == match failure {
            ConnectFailure::TimedOut => "connect timeout"@,
            ConnectFailure::Reported(text) => text@,
        },
{
    match failure {
        ConnectFailure::TimedOut => TransportError::ConnectFailed("connect timeout".to_owned()),
        ConnectFailure::Reported(text) => TransportError::ConnectFailed(text),
    }
}

/// Whether the transport can listen: only on a socket that is bound already.
pub fn check_socket(bound: bool) -> (result: Result<(), TransportError>)
    ensures
        result is Ok == bound,
        result matches Err(error) ==> error matches TransportError::BindFailed(detail) && detail@
            == "grpc transport requires a bound socket"@,
{
    if bound {
        Ok(())
    } else {
        Err(TransportError::BindFailed("grpc transport requires a bound socket".to_owned()))
    }
}

/// The sending half of a connection, until it is closed.
pub struct GrpcTransportSender {
    sender: Option<Mailbox<Envelope>>,
}

impl GrpcTransportSender {
    /// The channel of the connection, while it is open.
    pub closed spec fn channel(&self) -> Option<MailboxView<Envelope>> {
        match self.sender {
            Some(sender) => Some(sender@),
            None => None,
        }
    }

    /// The sending half of an open connection.
    pub fn new(sender: Mailbox<Envelope>) -> (half: Self)
        ensures
            half.channel() == Some(sender@),
    {
        GrpcTransportSender { sender: Some(sender) }
    }

    /// Puts a message on the connection. A closed connection takes none; an open
    /// one offers it to its channel, which answers.
    pub fn try_send(&mut self, envelope: Envelope) -> (result: Result<(), TransportError>)
        ensures
            match old(self).channel() {
                None => {
                    &&& result == Err::<(), TransportError>(TransportError::Closed)
                    &&& final(self).channel() is None
                },
                Some(channel) => exists|answer: Offer<Envelope>| #[trigger]
                    answer.gives_back(envelope) && final(self).channel() == Some(
                        channel.offered(envelope, answer),
                    ) && result == transport_outcome(answer),
            },
    {
        match &mut self.sender {
            Some(sender) => {
                let answer = sender.put(envelope);
                transport_result(answer)
            },
            None => Err(TransportError::Closed),
        }
    }

    /// Closes the connection.
    pub fn close(&mut self)
        ensures
            final(self).channel() is None,
    {
        self.sender = None;
    }
}

/// The URL to connect to: an endpoint that names a scheme as it is, any other
/// over HTTP.
pub open spec fn url_of(endpoint: Seq<char>) -> Seq<char> {
    if contains_text(endpoint, "://"@) {
        endpoint
    } else {
        "http://"@ + endpoint
    }
}

/// The URL to connect to.
pub fn connect_url(endpoint: &Endpoint) -> (url: String)
    ensures
        url@ == url_of(endpoint@),
{
    if is_contained(endpoint.as_str(), "://") {
        endpoint.as_str().to_owned()
    } else {
        "http://".to_owned().concat(endpoint.as_str())
    }
}

/// Naming the scheme of an endpoint once is enough.
pub proof fn law_urls_are_stable(endpoint: Seq<char>)
    ensures
        url_of(url_of(endpoint)) == url_of(endpoint),
{
    reveal_strlit("://");
    reveal_strlit("http://");
    let url = url_of(endpoint);
    if !contains_text(endpoint, "://"@) {
        assert(url.subrange(4, 7) =~= "://"@);
        assert(crate::text::occurs_at(url, "://"@, 4));
    }
}

/// An endpoint that names a scheme is its own URL; any other is reached over HTTP at the
/// very endpoint.
pub proof fn law_endpoints_have_urls(endpoint: Seq<char>)
    ensures
        contains_text(endpoint, "://"@) ==> url_of(endpoint) == endpoint,
        !contains_text(endpoint, "://"@) ==> url_of(endpoint).len() == endpoint.len() + 7
            && url_of(endpoint).take(7) == "http://"@ && url_of(endpoint).skip(7) == endpoint,
        TRANSPORT_CHANNEL_CAPACITY == 1024,
{
    reveal_strlit("http://");
    if !contains_text(endpoint, "://"@) {
        assert(url_of(endpoint).take(7) =~= "http://"@);
        assert(url_of(endpoint).skip(7) =~= endpoint);
    }
}

} // verus!
