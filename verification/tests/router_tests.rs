use moq_prototype::rpcmoq_lite::client::{
    discovery_step, DiscoveryEvent, DiscoveryStep, RpcClient, RpcClientConfig,
};
use moq_prototype::rpcmoq_lite::error::RpcError;
use moq_prototype::rpcmoq_lite::server::{RpcRouter, RpcRouterConfig};
use moq_prototype::state_machine::echo::{EchoInput, EchoMachine, EchoOutput, Position};
use moq_prototype::state_machine::StateMachine;

fn echo_router() -> RpcRouter {
    let config = RpcRouterConfig::new(Some("client".to_string()), Some("server".to_string()));
    let mut router = RpcRouter::new(config);
    router.register("drone.EchoService/Echo".to_string()).unwrap();
    router
}

fn echo_client() -> RpcClient {
    RpcClient::new(RpcClientConfig::new(
        "drone-1".to_string(),
        Some("client".to_string()),
        Some("server".to_string()),
    ))
}

#[test]
fn test_register_and_has_handler() {
    let mut router = echo_router();
    assert!(router.has_handler("drone.EchoService/Echo"));
    assert!(!router.has_handler("drone.EchoService/Other"));

    // Re-registration keeps the handler in place.
    router.register("drone.EchoService/Echo".to_string()).unwrap();
    assert!(router.has_handler("drone.EchoService/Echo"));
}

#[test]
fn test_handle_announcement_admits() {
    let mut router = echo_router();
    let client = echo_client();
    assert_eq!(client.client_id(), "drone-1");

    let (client_path, server_path) = client.connect_paths("drone.EchoService/Echo");
    assert_eq!(client_path, "client/drone-1/drone.EchoService/Echo");
    assert_eq!(server_path, "server/drone-1/drone.EchoService/Echo");

    let admitted = router.handle_announcement(&client_path).unwrap();
    assert_eq!(admitted.client_id, "drone-1");
    assert_eq!(admitted.grpc_path, "drone.EchoService/Echo");
    // The response channel is created exactly where the client expects it.
    assert_eq!(admitted.response_path, server_path);
    assert_eq!(router.active_sessions(), 1);
}

#[test]
fn test_handle_announcement_no_handler() {
    let mut router = echo_router();
    let err = router
        .handle_announcement("client/drone-1/drone.OtherService/Call")
        .unwrap_err();
    assert!(matches!(err, RpcError::NoHandler(ref s) if s == "drone.OtherService/Call"));
    assert_eq!(router.active_sessions(), 0);
}

#[test]
fn test_handle_announcement_parse_error() {
    let mut router = echo_router();
    let err = router.handle_announcement("other/drone-1/pkg.Svc/M").unwrap_err();
    assert!(matches!(err, RpcError::PathParse(_)));
    assert_eq!(router.active_sessions(), 0);
}

#[test]
fn test_duplicate_announcement_rejected() {
    // Two announcements for the same (client_id, call_name) arriving before
    // the first bridging task completes: exactly one admission and one
    // SessionAlreadyActive rejection, and no duplicate response channel.
    let mut router = echo_router();
    let path = "client/drone-1/drone.EchoService/Echo";

    let admitted = router.handle_announcement(path).unwrap();
    let rejected = router.handle_announcement(path).unwrap_err();
    assert!(matches!(
        rejected,
        RpcError::SessionAlreadyActive { ref client_id, ref grpc_path }
            if client_id == "drone-1" && grpc_path == "drone.EchoService/Echo"
    ));
    assert_eq!(router.active_sessions(), 1);

    // When the first bridging task terminates and releases its guard, the
    // same client and call can connect again.
    router.release_session(admitted.guard);
    assert_eq!(router.active_sessions(), 0);
    assert!(router.handle_announcement(path).is_ok());
}

#[test]
fn test_discovery_steps() {
    let server_path = "server/drone-1/drone.EchoService/Echo";

    let connected = discovery_step(
        server_path,
        DiscoveryEvent::Appeared(server_path.to_string()),
    );
    assert!(matches!(connected, DiscoveryStep::Connected));

    let waiting = discovery_step(
        server_path,
        DiscoveryEvent::Appeared("server/drone-2/drone.EchoService/Echo".to_string()),
    );
    assert!(matches!(waiting, DiscoveryStep::KeepWaiting));

    let waiting2 = discovery_step(
        server_path,
        DiscoveryEvent::Departed("server/drone-2/drone.EchoService/Echo".to_string()),
    );
    assert!(matches!(waiting2, DiscoveryStep::KeepWaiting));

    let gone = discovery_step(
        server_path,
        DiscoveryEvent::Departed(server_path.to_string()),
    );
    assert!(matches!(
        gone,
        DiscoveryStep::Rejected(RpcError::ServerNotFound(ref s)) if s == server_path
    ));

    let closed = discovery_step(server_path, DiscoveryEvent::Closed);
    assert!(matches!(closed, DiscoveryStep::Rejected(RpcError::ConnectionClosed)));
}

#[test]
fn test_end_to_end_echo() {
    // A client connects to the echo call against a router with a registered
    // echo connector; the value it sends comes back on the channel whose
    // name both sides derived independently.
    let mut router = echo_router();
    let client = echo_client();

    let (client_path, server_path) = client.connect_paths("drone.EchoService/Echo");

    // The client's request channel announcement reaches the router.
    let admitted = router.handle_announcement(&client_path).unwrap();
    assert_eq!(admitted.response_path, server_path);

    // The client sees the router's response announcement and connects.
    let step = discovery_step(
        &server_path,
        DiscoveryEvent::Appeared(admitted.response_path.clone()),
    );
    assert!(matches!(step, DiscoveryStep::Connected));

    // The bridging task feeds the inbound value into the echo connector and
    // forwards its output back.
    let sent = Position {
        drone_id: "drone-1".to_string(),
        latitude: (37.7749f64).to_bits(),
        longitude: (-122.4194f64).to_bits(),
        altitude_m: (100.0f64).to_bits(),
        heading_deg: (0.0f64).to_bits(),
        speed_mps: (0.0f64).to_bits(),
        timestamp: 1234567890,
    };
    let mut echo = EchoMachine::new();
    echo.process_input(EchoInput::Position(sent.clone()));
    let received = echo.poll_output();
    assert!(matches!(received, Some(EchoOutput::Position(ref p)) if p == &sent));

    // The bridging task terminates and releases its session.
    router.release_session(admitted.guard);
    assert_eq!(router.active_sessions(), 0);
}
