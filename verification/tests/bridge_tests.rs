use moq_prototype::bridge::{
    admit_drone, deliver_command, enqueue_unit_command, poll_unit_command, record_unit_telemetry,
    DeliverError,
};
use moq_prototype::drone::DroneSessionMap;
use moq_prototype::state_machine::telemetry::Position;
use moq_prototype::state_machine::wrappers::SystemResource;
use moq_prototype::unit::UnitId;
use moq_prototype::unit_context::UnitContext;
use moq_prototype::unit_map::UnitMap;

fn pos(lat: f64) -> Position {
    Position {
        drone_id: "drone-1".to_string(),
        latitude: lat.to_bits(),
        longitude: (-122.0f64).to_bits(),
        altitude_m: (80.0f64).to_bits(),
        heading_deg: (180.0f64).to_bits(),
        speed_mps: (2.0f64).to_bits(),
        timestamp: 1000,
    }
}

#[test]
fn test_bridge_record_telemetry() {
    let mut units: UnitMap<UnitContext> = UnitMap::new();
    let id = UnitId::from("drone-1");

    // A missing unit is nothing to do, not an error.
    assert!(!record_unit_telemetry(&mut units, &id, pos(37.0)));

    units.insert_unit(id.clone(), UnitContext::new()).unwrap();
    assert!(record_unit_telemetry(&mut units, &id, pos(37.0)));
    assert!(record_unit_telemetry(&mut units, &id, pos(38.0)));

    // Only the latest recorded position is pending, exactly once.
    let unit_ref = units.get_unit(&id).unwrap();
    let polled = unit_ref.update(&mut units, |ctx: UnitContext| {
        let mut c = ctx;
        let p = c.poll_telemetry();
        (c, p)
    });
    let polled = polled.unwrap().unwrap();
    assert_eq!(polled.latitude, (38.0f64).to_bits());
}

#[test]
fn test_bridge_command_queue() {
    let mut units: UnitMap<UnitContext> = UnitMap::new();
    let id = UnitId::from("drone-1");

    assert!(!enqueue_unit_command(&mut units, &id, vec![1]));
    assert_eq!(poll_unit_command(&mut units, &id), None);

    units.insert_unit(id.clone(), UnitContext::new()).unwrap();
    assert_eq!(poll_unit_command(&mut units, &id), None);

    assert!(enqueue_unit_command(&mut units, &id, vec![1]));
    assert!(enqueue_unit_command(&mut units, &id, vec![2, 2]));
    assert_eq!(poll_unit_command(&mut units, &id), Some(vec![1]));
    assert_eq!(poll_unit_command(&mut units, &id), Some(vec![2, 2]));
    assert_eq!(poll_unit_command(&mut units, &id), None);
}

#[test]
fn test_admit_drone_lifecycle() {
    let mut units: UnitMap<UnitContext> = UnitMap::new();
    let mut sessions = DroneSessionMap::new();
    let id = UnitId::from("drone-1");

    // First contact: creates the unit context and admits a session.
    let first = admit_drone(&mut units, &mut sessions, &id);
    assert!(first.is_ok());
    assert!(sessions.has_active_session(&id));
    assert!(units.get_unit(&id).is_ok());

    // A duplicate admission is rejected; the unit context stays.
    let second = admit_drone(&mut units, &mut sessions, &id);
    assert!(second.is_err());
    assert!(units.get_unit(&id).is_ok());

    // After departure, re-contact admits again and reuses the unit context.
    sessions.remove_session(&id).unwrap();
    let third = admit_drone(&mut units, &mut sessions, &id);
    assert!(third.is_ok());
}

#[test]
fn test_deliver_command_paths() {
    let mut units: UnitMap<UnitContext> = UnitMap::new();
    let mut sessions = DroneSessionMap::new();
    let id = UnitId::from("drone-1");

    // No session: the command is rejected.
    let rejected = deliver_command(&mut units, &sessions, &id, vec![7]).unwrap_err();
    assert_eq!(rejected, DeliverError::NotConnected);

    admit_drone(&mut units, &mut sessions, &id).unwrap();
    assert!(deliver_command(&mut units, &sessions, &id, vec![7]).is_ok());
    assert_eq!(poll_unit_command(&mut units, &id), Some(vec![7]));

    // A session without a unit context: the command has nowhere to go.
    units.remove_unit(&id).unwrap();
    let missing = deliver_command(&mut units, &sessions, &id, vec![8]).unwrap_err();
    assert_eq!(missing, DeliverError::UnitMissing);
}

#[test]
fn test_system_resource_tuples() {
    let single = <(std::time::Instant,) as SystemResource>::generate();
    let pair = <(std::time::Instant, std::time::Instant) as SystemResource>::generate();
    assert!(pair.1 >= single.0);
}
