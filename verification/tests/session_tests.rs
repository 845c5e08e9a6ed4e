use moq_prototype::drone::error::{SessionAlreadyActive, SessionNotFound};
use moq_prototype::drone::{DroneSessionId, DroneSessionMap};
use moq_prototype::rpcmoq_lite::error::RpcError;
use moq_prototype::rpcmoq_lite::server::{SessionKey, SessionMap};
use moq_prototype::unit::UnitId;

#[test]
fn test_create_session() {
    let mut map = DroneSessionMap::new();
    let unit_id = UnitId::from("drone-1");

    let result = map.create_session(&unit_id);
    assert!(result.is_ok());
    assert!(map.has_active_session(&unit_id));
    assert_eq!(map.active_session_count(), 1);
}

#[test]
fn test_duplicate_session_error() {
    let mut map = DroneSessionMap::new();
    let unit_id = UnitId::from("drone-1");

    let _ = map.create_session(&unit_id).unwrap();

    // Second attempt should fail
    let result = map.create_session(&unit_id);
    assert!(result.is_err());
    assert!(matches!(result.unwrap_err(), SessionAlreadyActive { .. }));
}

#[test]
fn test_remove_session() {
    let mut map = DroneSessionMap::new();
    let unit_id = UnitId::from("drone-1");

    let session_id = map.create_session(&unit_id).unwrap();

    let removed = map.remove_session(&unit_id).unwrap();
    assert_eq!(removed.session_id, session_id);
    assert!(!map.has_active_session(&unit_id));
}

#[test]
fn test_remove_nonexistent_session() {
    let mut map = DroneSessionMap::new();
    let unit_id = UnitId::from("drone-1");

    let result = map.remove_session(&unit_id);
    assert!(result.is_err());
    assert!(matches!(result.unwrap_err(), SessionNotFound { .. }));
}

#[test]
fn test_reconnect_after_disconnect() {
    let mut map = DroneSessionMap::new();
    let unit_id = UnitId::from("drone-1");

    // First connection
    let _ = map.create_session(&unit_id).unwrap();
    let _ = map.remove_session(&unit_id).unwrap();

    // Reconnect should succeed
    let result = map.create_session(&unit_id);
    assert!(result.is_ok());
}

#[test]
fn test_get_session_id_matches_created() {
    let mut map = DroneSessionMap::new();
    let unit_id = UnitId::from("drone-7");

    assert!(map.get_session_id(&unit_id).is_none());
    let created = map.create_session(&unit_id).unwrap();
    assert_eq!(map.get_session_id(&unit_id), Some(created));
}

#[test]
fn test_session_id_as_uuid() {
    let id = DroneSessionId::generate();
    let uuid = id.as_uuid();
    // A generated identifier carries a version 4 (random) UUID.
    assert_eq!(uuid.get_version_num(), 4);
    // The same identifier always maps to the same UUID value.
    assert_eq!(id.as_uuid(), uuid);
}

#[test]
fn test_session_exclusion() {
    // The admission-control law on the RPC session registry: a second
    // try_create for the held key fails, and after the guard is released the
    // key admits again.
    let mut sessions = SessionMap::new();
    let key = SessionKey::new("drone-1", "drone.EchoService/Echo");

    let guard = sessions.try_create(key).unwrap();
    assert!(sessions.has_active(&SessionKey::new("drone-1", "drone.EchoService/Echo")));
    assert_eq!(sessions.count(), 1);

    let second = sessions.try_create(SessionKey::new("drone-1", "drone.EchoService/Echo"));
    assert!(matches!(
        second,
        Err(RpcError::SessionAlreadyActive { ref client_id, ref grpc_path })
            if client_id == "drone-1" && grpc_path == "drone.EchoService/Echo"
    ));

    // A different key is not disturbed.
    let other = sessions.try_create(SessionKey::new("drone-2", "drone.EchoService/Echo"));
    assert!(other.is_ok());

    guard.release(&mut sessions);
    assert!(!sessions.has_active(&SessionKey::new("drone-1", "drone.EchoService/Echo")));
    assert_eq!(sessions.count(), 1);

    let third = sessions.try_create(SessionKey::new("drone-1", "drone.EchoService/Echo"));
    assert!(third.is_ok());
}

#[test]
fn test_session_map_remove() {
    let mut sessions = SessionMap::new();
    let key = SessionKey::new("c", "p.S/M");
    let _guard = sessions.try_create(key.clone()).unwrap();

    let removed = sessions.remove(&key).unwrap();
    assert_eq!(removed, key);
    assert!(!sessions.has_active(&key));

    let missing = sessions.remove(&key);
    assert!(matches!(
        missing,
        Err(e) if e.client_id == "c" && e.grpc_path == "p.S/M"
    ));
}
