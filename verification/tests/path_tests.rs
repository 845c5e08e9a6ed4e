use moq_prototype::rpcmoq_lite::client::RpcClientConfig;
use moq_prototype::rpcmoq_lite::error::RpcError;
use moq_prototype::rpcmoq_lite::path::RpcRequestPath;
use moq_prototype::rpcmoq_lite::server::RpcRouterConfig;
use moq_prototype::{control_broadcast_path, drone_broadcast_path, COMMAND_TRACK, POSITION_TRACK};

#[test]
fn test_broadcast_paths() {
    assert_eq!(drone_broadcast_path("d1"), "drone/d1");
    assert_eq!(control_broadcast_path("d1"), "control/d1");
    assert_eq!(POSITION_TRACK, "position");
    assert_eq!(COMMAND_TRACK, "commands");
}

#[test]
fn test_client_config_paths() {
    let config = RpcClientConfig::new(
        "drone-123".to_string(),
        Some("drone".to_string()),
        Some("server".to_string()),
    );
    assert_eq!(
        config.client_path("drone.EchoService/Echo"),
        "drone/drone-123/drone.EchoService/Echo"
    );
    assert_eq!(
        config.server_path("drone.EchoService/Echo"),
        "server/drone-123/drone.EchoService/Echo"
    );
    assert_eq!(config.track_name, "primary");
    assert_eq!(config.timeout_ms, 30000);
}

#[test]
fn test_client_config_paths_without_prefix() {
    let config = RpcClientConfig::new("drone-123".to_string(), None, None);
    assert_eq!(
        config.client_path("drone.EchoService/Echo"),
        "drone-123/drone.EchoService/Echo"
    );
    assert_eq!(
        config.server_path("drone.EchoService/Echo"),
        "drone-123/drone.EchoService/Echo"
    );
}

#[test]
fn test_router_config_response_path() {
    let config = RpcRouterConfig::new(Some("client".to_string()), Some("server".to_string()));
    assert_eq!(
        config.response_path("drone-1", "pkg.Svc/M"),
        "server/drone-1/pkg.Svc/M"
    );
    let bare = RpcRouterConfig::new(None, None);
    assert_eq!(bare.response_path("drone-1", "pkg.Svc/M"), "drone-1/pkg.Svc/M");
}

#[test]
fn test_parse_inverts_build() {
    // Parsing is the exact inverse of construction, and the call name keeps
    // its own separator-joined components.
    let parsed =
        RpcRequestPath::parse(Some("client"), "client/drone-1/drone.EchoService/Echo").unwrap();
    assert_eq!(parsed.client_id, "drone-1");
    assert_eq!(parsed.grpc_path.full_path(), "drone.EchoService/Echo");
}

#[test]
fn test_parse_without_prefix() {
    let parsed = RpcRequestPath::parse(None, "drone-1/pkg.Svc/M").unwrap();
    assert_eq!(parsed.client_id, "drone-1");
    assert_eq!(parsed.grpc_path.full_path(), "pkg.Svc/M");
}

#[test]
fn test_parse_deep_call_name() {
    // The remainder after the client id is rejoined, whatever its component
    // count.
    let parsed = RpcRequestPath::parse(Some("client"), "client/c/a/b/c/d").unwrap();
    assert_eq!(parsed.client_id, "c");
    assert_eq!(parsed.grpc_path.full_path(), "a/b/c/d");
}

#[test]
fn test_parse_rejects_wrong_prefix() {
    let err = RpcRequestPath::parse(Some("client"), "server/drone-1/pkg.Svc/M").unwrap_err();
    assert!(matches!(err, RpcError::PathParse(_)));
}

#[test]
fn test_parse_rejects_too_few_components() {
    assert!(matches!(
        RpcRequestPath::parse(Some("client"), "client/onlyid"),
        Err(RpcError::PathParse(_))
    ));
    assert!(matches!(
        RpcRequestPath::parse(None, "noslash"),
        Err(RpcError::PathParse(_))
    ));
}

#[test]
fn test_parse_rejects_empty_components() {
    // Empty client id
    assert!(matches!(
        RpcRequestPath::parse(Some("client"), "client//pkg.Svc/M"),
        Err(RpcError::PathParse(_))
    ));
    // Empty call name
    assert!(matches!(
        RpcRequestPath::parse(None, "drone-1/"),
        Err(RpcError::PathParse(_))
    ));
}
