use coactor::runtime::session::SessionId;
use coactor::cluster::authority::NodeSessionId;
use coactor::transport::grpc::{
    check_socket, connect_error, connect_url, ConnectFailure, GrpcTransport, GrpcTransportSender,
};
use coactor::mailbox::{mailbox, Mailbox};
use coactor::transport::inmem::{connect, try_send, InmemRegistry, InmemStream};
use coactor::transport::{Endpoint, TransportError};
use coactor::transport_protocol::{AckOutcome, CloseReason, Envelope, Kind, RuntimeFailure};
use tokio::sync::mpsc::error::TryRecvError;

fn endpoint(name: &str) -> Endpoint {
    Endpoint::new(name.to_owned())
}

fn envelope(actor_type: &str, session_id: Vec<u8>, kind: Kind) -> Envelope {
    Envelope {
        protocol_version: 1,
        actor_type: actor_type.to_owned(),
        actor_id: vec![1],
        session_id,
        kind: Some(kind),
    }
}

#[test]
fn inmem_transport_forwards_envelopes_both_ways() {
    let mut registry: InmemRegistry<Mailbox<InmemStream>, ()> = InmemRegistry::new();
    let (listener, mut accepted) = mailbox::<InmemStream>(32);
    registry.listen(&endpoint("test-server"), listener).expect("listen");
    let mut client_stream = connect(&mut registry, &endpoint("test-server"), ()).expect("connected");
    let mut server_stream = accepted.receiver().try_recv().expect("accepted");
    try_send(
        &mut registry,
        &mut client_stream,
        Envelope {
            protocol_version: 1,
            actor_type: "echo".into(),
            actor_id: vec![1],
            session_id: vec![0; 16],
            kind: Some(Kind::Action { payload: b"ping".to_vec() }),
        },
    )
    .expect("send");
    assert_eq!(server_stream.receiver.receiver().try_recv().unwrap().actor_type, "echo");
    try_send(
        &mut registry,
        &mut server_stream,
        Envelope {
            protocol_version: 0,
            actor_type: String::new(),
            actor_id: Vec::new(),
            session_id: vec![0; 16],
            kind: Some(Kind::Event { payload: b"pong".to_vec() }),
        },
    )
    .expect("send");
    assert!(matches!(client_stream.receiver.receiver().try_recv().unwrap().kind, Some(Kind::Event { .. })));
    registry.shutdown("test-server");
    assert!(matches!(accepted.receiver().try_recv(), Err(TryRecvError::Disconnected)));
}

#[test]
fn inmem_connections_are_closed_once() {
    let mut registry: InmemRegistry<Mailbox<InmemStream>, u8> = InmemRegistry::new();
    let (listener, _accepted) = mailbox::<InmemStream>(1);
    registry.listen(&endpoint("a"), listener).unwrap();
    let mut stream = connect(&mut registry, &endpoint("a"), 7).unwrap();
    assert_eq!(registry.connection_ids("a"), vec![stream.connection_id]);
    assert!(registry.connection_ids("b").is_empty());
    assert_eq!(registry.close_connection(stream.connection_id), Some(7));
    assert_eq!(registry.close_connection(stream.connection_id), None);
    let sent = try_send(&mut registry, &mut stream, envelope("x", vec![0; 16], Kind::SessionOpen));
    assert_eq!(sent, Err(TransportError::Closed));
    assert!(!registry.record(stream.connection_id, vec![0; 16]));
}

#[test]
fn inmem_listeners_refuse_what_they_cannot_take() {
    let mut registry: InmemRegistry<Mailbox<InmemStream>, u8> = InmemRegistry::new();
    let unknown = connect(&mut registry, &endpoint("nowhere"), 0);
    match unknown {
        Err(TransportError::ConnectFailed(detail)) => assert_eq!(detail, "unknown endpoint `nowhere`"),
        _ => panic!("connected to nowhere"),
    }
    let (listener, _accepted) = mailbox::<InmemStream>(1);
    registry.listen(&endpoint("a"), listener).unwrap();
    assert!(connect(&mut registry, &endpoint("a"), 1).is_ok());
    let full = connect(&mut registry, &endpoint("a"), 2);
    assert!(matches!(full, Err(TransportError::Closed)));
    assert_eq!(registry.connection_ids("a"), vec![0]);
    let (again, _accepted) = mailbox::<InmemStream>(1);
    assert_eq!(
        registry.listen(&endpoint("a"), again),
        Err(TransportError::BindFailed("inmem endpoint `a` already registered".to_owned()))
    );
}

#[test]
fn full_connections_say_so() {
    let mut registry: InmemRegistry<Mailbox<InmemStream>, u8> = InmemRegistry::new();
    let (listener, _accepted) = mailbox::<InmemStream>(1);
    registry.listen(&endpoint("a"), listener).unwrap();
    let mut stream = connect(&mut registry, &endpoint("a"), 0).unwrap();
    for _ in 0..1024 {
        try_send(&mut registry, &mut stream, envelope("x", vec![0; 16], Kind::SessionOpen)).unwrap();
    }
    let refused = try_send(&mut registry, &mut stream, envelope("x", vec![0; 16], Kind::SessionOpen));
    assert_eq!(refused, Err(TransportError::Full));
}

#[test]
fn session_ids_are_random_uuids() {
    let id = SessionId::new();
    let bytes = id.as_bytes();
    assert_eq!(bytes.len(), 16);
    assert_eq!(bytes[6] & 0xf0, 0x40);
    assert_eq!(bytes[8] & 0xc0, 0x80);
    assert_eq!(SessionId::from_bytes(&bytes), Some(id));
    assert_ne!(SessionId::new(), id);
    assert_eq!(SessionId::from_bytes(&bytes[..15]), None);
    assert_eq!(SessionId::from_bytes(&[0; 17]), None);
}

#[test]
fn grpc_endpoints_become_urls() {
    assert_eq!(connect_url(&endpoint("actor-0:7000")), "http://actor-0:7000");
    assert_eq!(connect_url(&endpoint("https://actor-0:7000")), "https://actor-0:7000");
    assert!(GrpcTransport::server().transport_connect_timeout.is_zero());
    let timeout = std::time::Duration::from_millis(250);
    assert_eq!(GrpcTransport::new(timeout).transport_connect_timeout, timeout);
}

#[test]
fn failure_codes_round_trip() {
    for code in 0..16 {
        assert_eq!(RuntimeFailure::from_code(code).to_code(), code);
    }
    assert_eq!(RuntimeFailure::from_code(16), RuntimeFailure::Unspecified);
    assert_eq!(RuntimeFailure::from_code(-1), RuntimeFailure::Unspecified);
    assert_eq!(CloseReason::CallerDropped.to_code(), 1);
    assert_eq!(CloseReason::Unspecified.to_code(), 0);
}

#[test]
fn replies_carry_only_the_session() {
    let reply = Envelope::reply(vec![9; 16], Kind::SessionOpenedAck { outcome: Some(AckOutcome::Opened(Vec::new())) });
    assert_eq!(reply.protocol_version, 0);
    assert_eq!(reply.actor_type, "");
    assert!(reply.actor_id.is_empty());
    assert_eq!(reply.session_id, vec![9; 16]);
}

#[test]
fn transport_errors_have_texts() {
    assert_eq!(TransportError::ConnectFailed("x".into()).message(), "connect failed: x");
    assert_eq!(TransportError::BindFailed("y".into()).message(), "bind failed: y");
    assert_eq!(TransportError::Closed.message(), "stream closed");
    assert_eq!(TransportError::Full.message(), "send buffer full");
}

#[test]
fn node_sessions_are_hyphenated_uuids() {
    let life = NodeSessionId::generate();
    let text = life.as_str();
    assert_eq!(text.len(), 36);
    for (i, c) in text.chars().enumerate() {
        if [8, 13, 18, 23].contains(&i) {
            assert_eq!(c, '-');
        } else {
            assert!(c.is_ascii_hexdigit() && !c.is_ascii_uppercase());
        }
    }
    assert_eq!(text.chars().nth(14), Some('4'));
    assert!("89ab".contains(text.chars().nth(19).unwrap()));
    assert_ne!(life, NodeSessionId::generate());
}

#[test]
fn what_callers_send_is_recorded() {
    let mut registry: InmemRegistry<Mailbox<InmemStream>, ()> = InmemRegistry::new();
    let (listener, mut accepted) = mailbox::<InmemStream>(32);
    registry.listen(&endpoint("a"), listener).expect("listen");
    let mut first = connect(&mut registry, &endpoint("a"), ()).expect("connected");
    let mut second = connect(&mut registry, &endpoint("a"), ()).expect("connected");
    let mut owner_ends = vec![accepted.receiver().try_recv().unwrap(), accepted.receiver().try_recv().unwrap()];
    let session = |n: u8| SessionId::from_bytes(&[n; 16]).unwrap();
    let action = |n: u8| envelope("a", vec![n; 16], Kind::Action { payload: vec![] });
    for n in [1, 2, 1] {
        try_send(&mut registry, &mut second, action(n)).expect("send");
    }
    try_send(&mut registry, &mut first, action(1)).expect("send");
    let mut answer = owner_ends.pop().unwrap();
    try_send(&mut registry, &mut answer, action(9)).expect("send");
    assert_eq!(
        registry.session_connection_ids(session(1)),
        vec![first.connection_id, second.connection_id]
    );
    assert_eq!(registry.session_connection_ids(session(2)), vec![second.connection_id]);
    assert!(registry.session_connection_ids(session(9)).is_empty());
    assert_eq!(registry.connection_session_counts("a"), vec![1, 2]);
    assert!(registry.connection_session_counts("b").is_empty());
    registry.close_connection(second.connection_id);
    assert_eq!(registry.connection_session_counts("a"), vec![1]);
}

#[test]
fn grpc_senders_stop_when_they_are_closed() {
    let (sender, mut receiver) = mailbox::<Envelope>(1);
    let mut half = GrpcTransportSender::new(sender);
    let message = || envelope("a", vec![0; 16], Kind::SessionOpen);
    assert_eq!(half.try_send(message()), Ok(()));
    assert_eq!(half.try_send(message()), Err(TransportError::Full));
    assert!(receiver.receiver().try_recv().is_ok());
    half.close();
    assert_eq!(half.try_send(message()), Err(TransportError::Closed));
    assert!(matches!(receiver.receiver().try_recv(), Err(TryRecvError::Disconnected)));
}

#[test]
fn the_ends_of_a_connection_are_crossed() {
    let mut registry: InmemRegistry<Mailbox<InmemStream>, ()> = InmemRegistry::new();
    let (listener, mut accepted) = mailbox::<InmemStream>(2);
    registry.listen(&endpoint("a"), listener).expect("listen");
    let mut caller = connect(&mut registry, &endpoint("a"), ()).expect("connected");
    let mut other = connect(&mut registry, &endpoint("a"), ()).expect("connected");
    let mut owner = accepted.receiver().try_recv().expect("accepted");
    assert_eq!(owner.connection_id, caller.connection_id);
    assert!(caller.caller && !owner.caller);
    let message = |name: &str| envelope(name, vec![0; 16], Kind::SessionOpen);
    try_send(&mut registry, &mut caller, message("there")).expect("send");
    assert!(caller.receiver.receiver().try_recv().is_err());
    assert_eq!(owner.receiver.receiver().try_recv().unwrap().actor_type, "there");
    try_send(&mut registry, &mut owner, message("back")).expect("send");
    assert!(owner.receiver.receiver().try_recv().is_err());
    assert!(other.receiver.receiver().try_recv().is_err());
    assert_eq!(caller.receiver.receiver().try_recv().unwrap().actor_type, "back");
}

#[test]
fn grpc_failures_are_named() {
    assert_eq!(check_socket(true), Ok(()));
    assert_eq!(
        check_socket(false),
        Err(TransportError::BindFailed("grpc transport requires a bound socket".into()))
    );
    assert_eq!(
        connect_error(ConnectFailure::TimedOut),
        TransportError::ConnectFailed("connect timeout".into())
    );
    assert_eq!(
        connect_error(ConnectFailure::Reported("refused".into())),
        TransportError::ConnectFailed("refused".into())
    );
}
