//! The aggregation pipeline: identity resolution, insert-or-create, and
//! the per-player, per-frame stores.

use mechanic_series::attributes::{
    active_attr_key, torque_attr_key, vehicle_attr_key, ActorSnapshot, AttributeValue,
};
use mechanic_series::dodge::{DodgeHandler, TimeSeriesDodgeData};
use mechanic_series::flip_car::FlipCarHandler;
use mechanic_series::identity::{ActorMap, IdentityViolation, WrappedUniqueId};
use mechanic_series::jump::{JumpHandler, TimeSeriesJumpData};

const CAR_A: i32 = 7;
const CAR_B: i32 = 8;
const PLAYER_ACTOR_A: i32 = 70;
const PLAYER_ACTOR_B: i32 = 80;

fn player_a() -> WrappedUniqueId {
    WrappedUniqueId { platform: 1, online_id: 111 }
}

fn player_b() -> WrappedUniqueId {
    WrappedUniqueId { platform: 2, online_id: 222 }
}

fn car_map() -> ActorMap<i32> {
    let mut m = ActorMap::new();
    m.insert(CAR_A, PLAYER_ACTOR_A);
    m.insert(CAR_B, PLAYER_ACTOR_B);
    m
}

fn id_map() -> ActorMap<WrappedUniqueId> {
    let mut m = ActorMap::new();
    m.insert(PLAYER_ACTOR_A, player_a());
    m.insert(PLAYER_ACTOR_B, player_b());
    m
}

fn car_update(car: i32, active_byte: u8) -> ActorSnapshot {
    let mut s = ActorSnapshot::new();
    s.push_attribute(vehicle_attr_key(), AttributeValue::ActiveActor { active: true, actor: car });
    s.push_attribute(active_attr_key(), AttributeValue::Byte(active_byte));
    s
}

#[test]
fn update_without_vehicle_reference_is_a_no_op() {
    let (car, ids) = (car_map(), id_map());
    let mut h = JumpHandler::new(10);
    let mut s = ActorSnapshot::new();
    s.push_attribute(active_attr_key(), AttributeValue::Byte(1));
    let r = h.update(&s, 0, &car, &ids);
    assert_eq!(r, Ok(()));
    assert!(!h.store.contains_player(&player_a()));
    assert!(!h.store.contains_player(&player_b()));
}

#[test]
fn update_with_wrongly_tagged_vehicle_reference_is_a_no_op() {
    let (car, ids) = (car_map(), id_map());
    let mut h = JumpHandler::new(10);
    let mut s = ActorSnapshot::new();
    s.push_attribute(vehicle_attr_key(), AttributeValue::Byte(1));
    s.push_attribute(active_attr_key(), AttributeValue::Byte(1));
    let r = h.update(&s, 0, &car, &ids);
    assert_eq!(r, Ok(()));
    assert!(!h.store.contains_player(&player_a()));
}

#[test]
fn update_for_unlinked_car_is_a_no_op() {
    let (car, ids) = (car_map(), id_map());
    let mut h = JumpHandler::new(10);
    let s = car_update(99, 1);
    let r = h.update(&s, 0, &car, &ids);
    assert_eq!(r, Ok(()));
    assert!(!h.store.contains_player(&player_a()));
    assert!(!h.store.contains_player(&player_b()));
}

#[test]
fn missing_stable_identity_is_an_error_and_stores_nothing() {
    let car = car_map();
    let mut ids = ActorMap::new();
    ids.insert(PLAYER_ACTOR_A, player_a());
    // CAR_B's player actor has no stable identity in this map.
    let mut h = JumpHandler::new(10);
    let r = h.update(&car_update(CAR_B, 1), 0, &car, &ids);
    assert_eq!(r, Err(IdentityViolation { player_actor_id: PLAYER_ACTOR_B }));
    assert!(!h.store.contains_player(&player_b()));
}

#[test]
fn relevant_update_is_recorded_for_the_resolved_player() {
    let (car, ids) = (car_map(), id_map());
    let mut h = JumpHandler::new(10);
    let r = h.update(&car_update(CAR_A, 1), 4, &car, &ids);
    assert_eq!(r, Ok(()));
    assert_eq!(
        h.store.snapshot_at(&player_a(), 4),
        Some(TimeSeriesJumpData { jump_is_active: Some(true) })
    );
    assert_eq!(h.store.series_len(&player_a()), 1);
    assert!(!h.store.contains_player(&player_b()));
}

#[test]
fn repeated_identical_update_leaves_the_series_unchanged() {
    let (car, ids) = (car_map(), id_map());
    let mut h = JumpHandler::new(10);
    let s = car_update(CAR_A, 3);
    assert_eq!(h.update(&s, 2, &car, &ids), Ok(()));
    assert_eq!(h.update(&s, 2, &car, &ids), Ok(()));
    assert_eq!(h.store.series_len(&player_a()), 1);
    assert_eq!(
        h.store.snapshot_at(&player_a(), 2),
        Some(TimeSeriesJumpData { jump_is_active: Some(true) })
    );
}

#[test]
fn later_update_at_the_same_frame_wins() {
    let (car, ids) = (car_map(), id_map());
    let mut h = JumpHandler::new(10);
    assert_eq!(h.update(&car_update(CAR_A, 1), 2, &car, &ids), Ok(()));
    assert_eq!(h.update(&car_update(CAR_A, 2), 2, &car, &ids), Ok(()));
    assert_eq!(h.store.series_len(&player_a()), 1);
    assert_eq!(
        h.store.snapshot_at(&player_a(), 2),
        Some(TimeSeriesJumpData { jump_is_active: Some(false) })
    );
}

#[test]
fn series_holds_exactly_the_frames_of_relevant_updates() {
    let (car, ids) = (car_map(), id_map());
    let mut h = JumpHandler::new(6);
    // Player A's car first appears at frame 2 and is then seen at 2, 3, 5.
    for frame in [2usize, 3, 5] {
        assert_eq!(h.update(&car_update(CAR_A, 1), frame, &car, &ids), Ok(()));
    }
    // Frame 4 carries an update that does not concern a tracked car.
    assert_eq!(h.update(&ActorSnapshot::new(), 4, &car, &ids), Ok(()));
    assert_eq!(h.store.series_len(&player_a()), 3);
    for frame in 0..6usize {
        let expected = [2, 3, 5].contains(&frame);
        assert_eq!(h.store.snapshot_at(&player_a(), frame).is_some(), expected);
    }
}

#[test]
fn distinct_players_have_isolated_series() {
    let (car, ids) = (car_map(), id_map());
    let mut h = JumpHandler::new(10);
    assert_eq!(h.update(&car_update(CAR_A, 1), 0, &car, &ids), Ok(()));
    assert_eq!(h.update(&car_update(CAR_B, 2), 0, &car, &ids), Ok(()));
    assert_eq!(
        h.store.snapshot_at(&player_a(), 0),
        Some(TimeSeriesJumpData { jump_is_active: Some(true) })
    );
    assert_eq!(
        h.store.snapshot_at(&player_b(), 0),
        Some(TimeSeriesJumpData { jump_is_active: Some(false) })
    );
    // A later write for B's car does not touch A's series.
    assert_eq!(h.update(&car_update(CAR_B, 1), 0, &car, &ids), Ok(()));
    assert_eq!(
        h.store.snapshot_at(&player_a(), 0),
        Some(TimeSeriesJumpData { jump_is_active: Some(true) })
    );
    assert_eq!(h.store.series_len(&player_a()), 1);
    assert_eq!(h.store.series_len(&player_b()), 1);
}

#[test]
fn three_frame_dodge_scenario() {
    let (car, ids) = (car_map(), id_map());
    let mut h = DodgeHandler::new(3);

    // Frame 0: activity byte 1, no torque.
    assert_eq!(h.update(&car_update(CAR_A, 1), 0, &car, &ids), Ok(()));
    // Frame 1: the update does not reference a car; nothing is recorded.
    assert_eq!(h.update(&ActorSnapshot::new(), 1, &car, &ids), Ok(()));
    // Frame 2: activity byte 2 with torque (0, 0, 1).
    let mut s2 = car_update(CAR_A, 2);
    s2.push_attribute(
        torque_attr_key(),
        AttributeValue::Location {
            x_bits: 0.0f32.to_bits(),
            y_bits: 0.0f32.to_bits(),
            z_bits: 1.0f32.to_bits(),
        },
    );
    assert_eq!(h.update(&s2, 2, &car, &ids), Ok(()));

    assert_eq!(h.store.series_len(&player_a()), 2);
    assert_eq!(
        h.store.snapshot_at(&player_a(), 0),
        Some(TimeSeriesDodgeData {
            dodge_is_active: Some(true),
            dodge_torque_x: None,
            dodge_torque_y: None,
            dodge_torque_z: None,
        })
    );
    assert_eq!(h.store.snapshot_at(&player_a(), 1), None);
    assert_eq!(
        h.store.snapshot_at(&player_a(), 2),
        Some(TimeSeriesDodgeData {
            dodge_is_active: Some(false),
            dodge_torque_x: Some(0.0f32.to_bits()),
            dodge_torque_y: Some(0.0f32.to_bits()),
            dodge_torque_z: Some(1.0f32.to_bits()),
        })
    );
}

#[test]
fn frame_past_the_capacity_hint_is_still_recorded() {
    let (car, ids) = (car_map(), id_map());
    // A frame number beyond the declared frame count still stores: the
    // count only sizes fresh series.
    let mut h = FlipCarHandler::new(2);
    assert_eq!(h.update(&car_update(CAR_A, 1), 9, &car, &ids), Ok(()));
    assert_eq!(h.store.series_len(&player_a()), 1);
    assert!(h.store.snapshot_at(&player_a(), 9).is_some());
}

#[test]
fn actor_map_insert_overwrites() {
    let mut m: ActorMap<i32> = ActorMap::new();
    assert_eq!(m.len(), 0);
    m.insert(1, 10);
    m.insert(1, 20);
    m.insert(2, 30);
    assert_eq!(m.len(), 2);
    assert_eq!(m.get(1), Some(20));
    assert_eq!(m.get(2), Some(30));
    assert_eq!(m.get(3), None);
}
