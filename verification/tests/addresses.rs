use coactor::actor::{ActorAddress, ActorConfig, IntoActorConfig};
use coactor::cluster::endpoint::{canonical_endpoint, parse_listen_address, SocketText};
use coactor::error::{
    ActorAddressError, ClientBuildError, OpenError, RemoteProtocolError, SendError, ServerError,
    ServerFailure, ServerStartError,
};
use coactor::runtime::inbound::actor_address_from_envelope;
use std::time::Duration;

#[test]
fn addresses_are_pairs_of_dns_labels() {
    let address = ActorAddress::new("counter", "counter-7").unwrap();
    assert_eq!(address.actor_type(), "counter");
    assert_eq!(address.actor_id(), "counter-7");
    assert_eq!(address.to_text(), "counter/counter-7");
    assert_eq!(address.clone(), address);
}

#[test]
fn invalid_names_are_refused() {
    let long = "a".repeat(63);
    assert!(ActorAddress::new(&long, &long).is_ok());
    let longer = "a".repeat(64);
    for bad in ["", "-a", "a-", "A", "a_b", "a.b", "\u{e9}", longer.as_str()] {
        assert_eq!(ActorAddress::new(bad, "x"), Err(ActorAddressError::InvalidActorType));
        assert_eq!(ActorAddress::new("x", bad), Err(ActorAddressError::InvalidActorId));
        assert_eq!(ActorAddress::new(bad, bad), Err(ActorAddressError::InvalidActorType));
    }
}

#[test]
fn envelopes_name_addresses_in_utf8() {
    let address = actor_address_from_envelope("room".into(), b"lobby-1".to_vec()).unwrap();
    assert_eq!(address.to_text(), "room/lobby-1");
    assert!(actor_address_from_envelope("room".into(), vec![0xff]).is_none());
    assert!(actor_address_from_envelope("Room".into(), b"lobby".to_vec()).is_none());
    assert!(actor_address_from_envelope("room".into(), "\u{e9}".as_bytes().to_vec()).is_none());
}

#[test]
fn configurations_come_from_names_and_from_themselves() {
    let named = "counter".into_actor_config();
    assert_eq!(named.name, "counter");
    assert_eq!(named.mailbox_capacity, None);
    let config = ActorConfig::new("counter").mailbox_capacity(3).idle_timeout(Duration::from_secs(9));
    let same = config.into_actor_config();
    assert_eq!(same.mailbox_capacity, Some(3));
    assert_eq!(same.idle_timeout, Some(Duration::from_secs(9)));
    assert_eq!(ActorConfig::default().name, "");
}

#[test]
fn endpoints_are_brought_into_canonical_form() {
    let plain = |value: &str| canonical_endpoint(value, None);
    assert_eq!(plain("actor-0.internal:7000"), Some("actor-0.internal:7000".to_owned()));
    assert_eq!(plain("Actor-0.Internal:+07000"), Some("actor-0.internal:7000".to_owned()));
    for bad in [
        "", "host", "http://host:1", "host:1/", "host:1?", "host:1#", "host:0", "host:65536",
        "host:", "host:+", "host:1a", ":1", "a:b:1", "[::1:1", "a..b:1", "-a:1", "a_b:1",
        "\u{e9}:1",
    ] {
        assert_eq!(plain(bad), None, "{bad}");
    }
    let long = format!("{}:1", vec!["a".repeat(50); 5].join("."));
    assert_eq!(plain(&long), None);
    let socket = |port| Some(SocketText { text: "127.0.0.1:80".into(), port });
    assert_eq!(canonical_endpoint("127.0.0.1:80", socket(80)), Some("127.0.0.1:80".to_owned()));
    assert_eq!(canonical_endpoint("127.0.0.1:0", socket(0)), None);
}

#[test]
fn canonical_endpoints_are_stable() {
    let once = canonical_endpoint("Actor.Example:0080", None).unwrap();
    assert_eq!(once, "actor.example:80");
    assert_eq!(canonical_endpoint(&once, None), Some(once));
    let text = "[::1]:7000".to_string();
    let socket = || Some(SocketText { text: text.clone(), port: 7000 });
    let once = canonical_endpoint("[0:0::1]:7000", socket()).unwrap();
    assert_eq!(once, text);
    assert_eq!(canonical_endpoint(&once, socket()), Some(once));
}

#[test]
fn listen_addresses_may_leave_the_host_out() {
    assert_eq!(parse_listen_address(":7000").unwrap(), "0.0.0.0:7000");
    assert_eq!(parse_listen_address("10.0.0.1:7000").unwrap(), "10.0.0.1:7000");
    assert!(matches!(parse_listen_address(":"), Err(ServerError::InvalidListenAddress)));
    assert!(matches!(parse_listen_address("::1"), Err(ServerError::InvalidListenAddress)));
    assert_eq!(parse_listen_address("").unwrap(), "");
}

#[test]
fn errors_survive_the_wire() {
    let plain = [
        SendError::NotOwner,
        SendError::MailboxFull,
        SendError::ActivationFailed,
        SendError::ActorDeactivating,
        SendError::RuntimeAtCapacity,
        SendError::RuntimeShuttingDown,
        SendError::ActorStopped,
        SendError::RuntimeStopped,
        SendError::NodeFenced,
        SendError::RemoteUnavailable,
        SendError::OwnershipUnavailable,
    ];
    for error in plain {
        assert_eq!(SendError::from_wire(error.to_wire()), error);
        assert_eq!(error.duplicate(), error);
    }
    let unnamed = SendError::from_wire(SendError::ActorTypeNotRegistered("x".into()).to_wire());
    assert_eq!(unnamed, SendError::ActorTypeNotRegistered(String::new()));
    for lost in [SendError::DirectoryUnavailable, SendError::NoAvailableGateway] {
        assert_eq!(SendError::from_wire(lost.to_wire()), SendError::RemoteUnavailable);
    }
    let mismatch = SendError::RemoteProtocol(RemoteProtocolError::VersionMismatch);
    let malformed = SendError::RemoteProtocol(RemoteProtocolError::MalformedMessage);
    assert_eq!(SendError::from_wire(malformed.to_wire()), mismatch);
    assert_eq!(SendError::from_wire(999), mismatch);
}

#[test]
fn send_errors_become_open_errors() {
    assert_eq!(OpenError::from(SendError::RuntimeShuttingDown), OpenError::RuntimeStopped);
    assert_eq!(OpenError::from(SendError::RuntimeStopped), OpenError::RuntimeStopped);
    assert_eq!(OpenError::from(SendError::DirectoryUnavailable), OpenError::DirectoryUnavailable);
    assert_eq!(OpenError::from(SendError::NoAvailableGateway), OpenError::NoAvailableGateway);
    assert_eq!(
        OpenError::from(SendError::ActorTypeNotRegistered("x".into())),
        OpenError::ActorTypeNotRegistered
    );
    assert_eq!(OpenError::from(SendError::RuntimeAtCapacity), OpenError::RuntimeAtCapacity);
    assert_eq!(OpenError::from(SendError::OwnershipUnavailable), OpenError::OwnershipUnavailable);
    assert_eq!(
        OpenError::from(SendError::RemoteProtocol(RemoteProtocolError::VersionMismatch)),
        OpenError::RemoteProtocol
    );
    assert_eq!(OpenError::from(SendError::MailboxFull), OpenError::RemoteUnavailable);
}

#[test]
fn errors_have_texts() {
    assert_eq!(
        ActorAddressError::InvalidActorId.message(),
        "Actor ID must be a Kubernetes DNS label"
    );
    assert_eq!(
        SendError::ActorTypeNotRegistered("room".into()).message(),
        "Actor Type `room` is not registered"
    );
    assert_eq!(
        SendError::RemoteProtocol(RemoteProtocolError::MalformedMessage).message(),
        "the remote runtime rejected the protocol: malformed session message"
    );
    assert_eq!(
        ServerStartError::DuplicateActorType("room".into()).message(),
        "Actor Type `room` was registered more than once"
    );
    assert_eq!(
        ServerError::InvalidActorType("Room".into()).message(),
        "Actor Type `Room` is invalid"
    );
    assert_eq!(
        ServerFailure::Fenced.message(),
        "the Server self-fenced after losing Node authority"
    );
    assert_eq!(
        ClientBuildError::InvalidOpenTimeout.message(),
        "open timeout must be greater than zero"
    );
    assert_eq!(OpenError::RuntimeStopped.message(), "the Client runtime stopped");
}
