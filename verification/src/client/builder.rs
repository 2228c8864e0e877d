//! Configuring a Client.

use std::time::Duration;

use vstd::prelude::*;
use vstd::string::*;

use crate::client::connection::{ConnectionPools, ConnectionView};
use crate::client::inner::{ClientInner, PendingAck};
use crate::client::session::{CallerRegistry, CallersView};
use crate::cluster::placement::{default_placement, P2cPlacement, PlacementStrategy};
use crate::error::ClientBuildError;
use crate::keyed::KeyedMap;
use crate::time::{duration_nanos, is_zero};
use crate::transport::grpc::GrpcTransport;

verus! {

/// The attempts that an opening has unless told otherwise.
pub const DEFAULT_MAX_OPEN_ATTEMPTS: usize = 3;

/// The connections to one endpoint unless told otherwise.
pub const DEFAULT_MAX_CONNECTIONS_PER_ENDPOINT: usize = 4;

/// Builds a caller-only Client from read-only Coordination capabilities.
pub struct ClientBuilder<C, P> {
    pub transport: GrpcTransport,
    pub coordination: C,
    pub open_timeout: Duration,
    pub transport_connect_timeout: Duration,
    pub max_open_attempts: usize,
    pub max_connections_per_endpoint: usize,
    pub placement: P,
}

/// A Client: its state, and what it reaches the outside through. `R` is the
/// host's handle on the one who waits for a Session to open.
pub struct Client<R, C, P> {
    pub inner: ClientInner<R>,
    pub transport: GrpcTransport,
    pub coordination: C,
    pub placement: P,
}

/// Why a configuration yields no Client, if it does not.
pub open spec fn build_error(
    open_timeout: Duration,
    transport_connect_timeout: Duration,
    max_open_attempts: usize,
    max_connections_per_endpoint: usize,
) -> Option<ClientBuildError> {
    if duration_nanos(open_timeout) == 0 {
        Some(ClientBuildError::InvalidOpenTimeout)
    } else if duration_nanos(transport_connect_timeout) == 0 {
        Some(ClientBuildError::InvalidTransportConnectTimeout)
    } else if max_open_attempts == 0 {
        Some(ClientBuildError::InvalidMaxOpenAttempts)
    } else if max_connections_per_endpoint == 0 {
        Some(ClientBuildError::InvalidMaxConnectionsPerEndpoint)
    } else {
        None
    }
}

impl<C> ClientBuilder<C, P2cPlacement> {
    /// A builder with the defaults.
    pub fn new(coordination: C) -> (builder: Self)
        ensures
            builder.coordination == coordination,
            duration_nanos(builder.open_timeout) == 3_000_000_000,
            duration_nanos(builder.transport_connect_timeout) == 3_000_000_000,
            builder.transport.transport_connect_timeout == builder.transport_connect_timeout,
            builder.max_open_attempts == 3,
            builder.max_connections_per_endpoint == 4,
            builder.placement.wf(),
    {
        let connect_timeout = Duration::from_secs(3);
        ClientBuilder {
            transport: GrpcTransport::new(connect_timeout),
            coordination,
            open_timeout: Duration::from_secs(3),
            transport_connect_timeout: connect_timeout,
            max_open_attempts: DEFAULT_MAX_OPEN_ATTEMPTS,
            max_connections_per_endpoint: DEFAULT_MAX_CONNECTIONS_PER_ENDPOINT,
            placement: default_placement(),
        }
    }
}

impl<C, P> ClientBuilder<C, P> {
    /// Sets the total deadline for ownership resolution, Placement and Session open.
    pub fn open_timeout(self, timeout: Duration) -> (builder: Self)
        ensures
            builder == (ClientBuilder { open_timeout: timeout, ..self }),
    {
        ClientBuilder { open_timeout: timeout, ..self }
    }

    /// Sets the maximum time to establish one Transport Connection.
    pub fn transport_connect_timeout(self, timeout: Duration) -> (builder: Self)
        ensures
            builder == (ClientBuilder {
                transport_connect_timeout: timeout,
                transport: GrpcTransport { transport_connect_timeout: timeout },
                ..self
            }),
    {
        ClientBuilder {
            transport_connect_timeout: timeout,
            transport: GrpcTransport::new(timeout),
            ..self
        }
    }

    /// Sets the maximum number of SessionOpen messages sent to target Servers by one `open()`.
    /// Connection failures before a SessionOpen is sent do not consume this limit.
    pub fn max_open_attempts(self, attempts: usize) -> (builder: Self)
        ensures
            builder == (ClientBuilder { max_open_attempts: attempts, ..self }),
    {
        ClientBuilder { max_open_attempts: attempts, ..self }
    }

    /// Sets the maximum Transport Connections retained for each Server endpoint.
    pub fn max_connections_per_endpoint(self, maximum: usize) -> (builder: Self)
        ensures
            builder == (ClientBuilder { max_connections_per_endpoint: maximum, ..self }),
    {
        ClientBuilder { max_connections_per_endpoint: maximum, ..self }
    }

    /// Replaces the default p2c Placement Strategy.
    pub fn placement_strategy<Q: PlacementStrategy>(self, placement: Q) -> (builder: ClientBuilder<
        C,
        Q,
    >)
        ensures
            builder.placement == placement,
            builder.transport == self.transport,
            builder.coordination == self.coordination,
            builder.open_timeout == self.open_timeout,
            builder.transport_connect_timeout == self.transport_connect_timeout,
            builder.max_open_attempts == self.max_open_attempts,
            builder.max_connections_per_endpoint == self.max_connections_per_endpoint,
    {
        ClientBuilder {
            transport: self.transport,
            coordination: self.coordination,
            open_timeout: self.open_timeout,
            transport_connect_timeout: self.transport_connect_timeout,
            max_open_attempts: self.max_open_attempts,
            max_connections_per_endpoint: self.max_connections_per_endpoint,
            placement,
        }
    }

    /// Replaces the transport.
    pub fn with_transport(self, transport: GrpcTransport) -> (builder: Self)
        ensures
            builder == (ClientBuilder { transport, ..self }),
    {
        ClientBuilder { transport, ..self }
    }

    /// Validates the configuration and constructs the Client without Coordination I/O.
    pub fn build<R>(self) -> (client: Result<Client<R, C, P>, ClientBuildError>)
        ensures
            ({
                let error = build_error(
                    self.open_timeout,
                    self.transport_connect_timeout,
                    self.max_open_attempts,
                    self.max_connections_per_endpoint,
                );
                match client {
                    Err(e) => error == Some(e),
                    Ok(client) => {
                        &&& error is None
                        &&& client.transport == self.transport
                        &&& client.coordination == self.coordination
                        &&& client.placement == self.placement
                        &&& client.inner.wf()
                        &&& client.inner.running
                        &&& client.inner.open_timeout == self.open_timeout
                        &&& client.inner.max_open_attempts == self.max_open_attempts
                        &&& client.inner.max_connections_per_endpoint
                            == self.max_connections_per_endpoint
                        &&& client.inner.pools@ == Seq::<ConnectionView>::empty()
                        &&& client.inner.pending_opens@ == Map::<Seq<u8>, PendingAck<R>>::empty()
                        &&& client.inner.sessions@ == CallersView::empty()
                        &&& client.inner.placement_cache is None
                    },
                }
            }),
    {
        if is_zero(&self.open_timeout) {
            return Err(ClientBuildError::InvalidOpenTimeout);
        }
        if is_zero(&self.transport_connect_timeout) {
            return Err(ClientBuildError::InvalidTransportConnectTimeout);
        }
        if self.max_open_attempts == 0 {
            return Err(ClientBuildError::InvalidMaxOpenAttempts);
        }
        if self.max_connections_per_endpoint == 0 {
            return Err(ClientBuildError::InvalidMaxConnectionsPerEndpoint);
        }
        Ok(
            Client {
                inner: ClientInner {
                    open_timeout: self.open_timeout,
                    max_open_attempts: self.max_open_attempts,
                    max_connections_per_endpoint: self.max_connections_per_endpoint,
                    sessions: CallerRegistry::new(),
                    pools: ConnectionPools::new(),
                    pending_opens: KeyedMap::new(),
                    placement_cache: None,
                    running: true,
                },
                transport: self.transport,
                coordination: self.coordination,
                placement: self.placement,
            },
        )
    }
}

/// A configuration yields a Client exactly if both timeouts and both limits are positive. The
/// error names the first of them that is not.
pub proof fn law_clients_need_positive_limits(
    open_timeout: Duration,
    transport_connect_timeout: Duration,
    max_open_attempts: usize,
    max_connections_per_endpoint: usize,
)
    ensures
        ({
            let error = build_error(
                open_timeout,
                transport_connect_timeout,
                max_open_attempts,
                max_connections_per_endpoint,
            );
            &&& error is None <==> duration_nanos(open_timeout) > 0 && duration_nanos(
                transport_connect_timeout,
            ) > 0 && max_open_attempts > 0 && max_connections_per_endpoint > 0
            &&& duration_nanos(open_timeout) == 0 ==> error == Some(
                ClientBuildError::InvalidOpenTimeout,
            )
            &&& duration_nanos(open_timeout) > 0 && duration_nanos(transport_connect_timeout) == 0
                ==> error == Some(ClientBuildError::InvalidTransportConnectTimeout)
            &&& error == Some(ClientBuildError::InvalidMaxOpenAttempts) ==> max_open_attempts == 0
            &&& error == Some(ClientBuildError::InvalidMaxConnectionsPerEndpoint)
                ==> max_connections_per_endpoint == 0 && max_open_attempts > 0
        }),
{
}

} // verus!
