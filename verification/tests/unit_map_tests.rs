use moq_prototype::unit::UnitId;
use moq_prototype::unit_context::UnitContext;
use moq_prototype::unit_map::error::{UnitAlreadyPresent, UnitNotFound, UnitViewInvalid};
use moq_prototype::unit_map::UnitMap;

#[test]
fn test_insert_get_view() {
    let map: &mut UnitMap<u32> = &mut UnitMap::new();
    let id = UnitId::from("unit-1");

    assert!(map.insert_unit(id.clone(), 5).is_ok());
    let unit_ref = map.get_unit(&id).unwrap();
    let value = unit_ref.view(map, |v: &u32| *v);
    assert_eq!(value.unwrap(), 5);
}

#[test]
fn test_insert_duplicate_rejected() {
    let mut map: UnitMap<u32> = UnitMap::new();
    let id = UnitId::from("unit-1");

    assert!(map.insert_unit(id.clone(), 1).is_ok());
    let second = map.insert_unit(id.clone(), 2).unwrap_err();
    assert!(matches!(second, UnitAlreadyPresent { ref unit_id } if unit_id.as_str() == "unit-1"));

    // The stored value is untouched.
    let unit_ref = map.get_unit(&id).unwrap();
    assert_eq!(unit_ref.view(&map, |v: &u32| *v).unwrap(), 1);
}

#[test]
fn test_get_missing_unit() {
    let map: UnitMap<u32> = UnitMap::new();
    let id = UnitId::from("ghost");
    let err = map.get_unit(&id).unwrap_err();
    assert!(matches!(err, UnitNotFound { ref unit_id } if unit_id.as_str() == "ghost"));
}

#[test]
fn test_remove_missing_unit() {
    let mut map: UnitMap<u32> = UnitMap::new();
    let id = UnitId::from("ghost");
    let err = map.remove_unit(&id).unwrap_err();
    assert!(matches!(err, UnitNotFound { ref unit_id } if unit_id.as_str() == "ghost"));
}

#[test]
fn test_view_invalid_after_remove() {
    // The removal-is-final law: a reference obtained before removal fails
    // afterwards, and a fresh insertion creates an unrelated record that the
    // stale reference still cannot reach.
    let mut map: UnitMap<u32> = UnitMap::new();
    let id = UnitId::from("unit-1");

    assert!(map.insert_unit(id.clone(), 10).is_ok());
    let stale_ref = map.get_unit(&id).unwrap();
    assert_eq!(stale_ref.view(&map, |v: &u32| *v).unwrap(), 10);

    assert!(map.remove_unit(&id).is_ok());
    let err = stale_ref.view(&map, |v: &u32| *v).unwrap_err();
    assert!(matches!(err, UnitViewInvalid { ref unit_id } if unit_id.as_str() == "unit-1"));

    // Re-insertion succeeds and is independent of the removed record.
    assert!(map.insert_unit(id.clone(), 99).is_ok());
    let fresh_ref = map.get_unit(&id).unwrap();
    assert_eq!(fresh_ref.view(&map, |v: &u32| *v).unwrap(), 99);

    // The stale reference still reports the unit as gone.
    assert!(stale_ref.view(&map, |v: &u32| *v).is_err());
    assert!(stale_ref.update(&mut map, |v: u32| (v, ())).is_err());
}

#[test]
fn test_update_through_ref() {
    let mut map: UnitMap<UnitContext> = UnitMap::new();
    let id = UnitId::from("unit-1");
    assert!(map.insert_unit(id.clone(), UnitContext::new()).is_ok());

    let unit_ref = map.get_unit(&id).unwrap();
    let enq = unit_ref.update(&mut map, |ctx: UnitContext| {
        let mut c = ctx;
        c.enqueue_command(vec![9, 9]);
        (c, ())
    });
    assert!(enq.is_ok());

    let polled = unit_ref.update(&mut map, |ctx: UnitContext| {
        let mut c = ctx;
        let cmd = c.poll_command();
        (c, cmd)
    });
    assert_eq!(polled.unwrap(), Some(vec![9, 9]));
}

#[test]
fn test_unit_ref_equality_with_unit_id() {
    let mut map: UnitMap<u32> = UnitMap::new();
    let id = UnitId::from("unit-1");
    assert!(map.insert_unit(id.clone(), 0).is_ok());
    let unit_ref = map.get_unit(&id).unwrap();
    assert!(unit_ref == id);
    assert!(id == unit_ref);
    let other = UnitId::from("unit-2");
    assert!(!(unit_ref == other));
}

#[test]
fn test_unit_context_flow() {
    let mut ctx = UnitContext::new();
    assert_eq!(ctx.poll_command(), None);
    assert_eq!(ctx.poll_telemetry(), None);

    ctx.enqueue_command(vec![1]);
    ctx.enqueue_command(vec![2]);
    assert_eq!(ctx.poll_command(), Some(vec![1]));
    assert_eq!(ctx.poll_command(), Some(vec![2]));
    assert_eq!(ctx.poll_command(), None);

    let pos = moq_prototype::state_machine::telemetry::Position {
        drone_id: "d".to_string(),
        latitude: (1.0f64).to_bits(),
        longitude: (2.0f64).to_bits(),
        altitude_m: (3.0f64).to_bits(),
        heading_deg: (4.0f64).to_bits(),
        speed_mps: (5.0f64).to_bits(),
        timestamp: 6,
    };
    ctx.update_telemetry(pos.clone());
    assert_eq!(ctx.poll_telemetry(), Some(pos));
    assert_eq!(ctx.poll_telemetry(), None);
}
