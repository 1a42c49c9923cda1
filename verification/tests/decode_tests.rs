//! Attribute decoding: parity-encoded activity flag and torque vector.

use mechanic_series::attributes::{
    active_attr_key, torque_attr_key, vehicle_attr_key, ActorSnapshot, AttributeValue,
};
use mechanic_series::dodge::TimeSeriesDodgeData;
use mechanic_series::double_jump::TimeSeriesDoubleJumpData;
use mechanic_series::flip_car::TimeSeriesFlipCarData;
use mechanic_series::jump::TimeSeriesJumpData;

fn snapshot_with_byte(b: u8) -> ActorSnapshot {
    let mut s = ActorSnapshot::new();
    s.push_attribute(active_attr_key(), AttributeValue::Byte(b));
    s
}

#[test]
fn activity_flag_is_parity_of_byte() {
    for b in 0..=255u8 {
        let s = snapshot_with_byte(b);
        let decoded = TimeSeriesJumpData::from(&s);
        assert_eq!(decoded.jump_is_active, Some(b % 2 == 1));
    }
}

#[test]
fn activity_flag_examples() {
    assert_eq!(TimeSeriesJumpData::from(&snapshot_with_byte(3)).jump_is_active, Some(true));
    assert_eq!(TimeSeriesJumpData::from(&snapshot_with_byte(4)).jump_is_active, Some(false));
    assert_eq!(TimeSeriesJumpData::from(&snapshot_with_byte(0)).jump_is_active, Some(false));
    assert_eq!(TimeSeriesJumpData::from(&snapshot_with_byte(1)).jump_is_active, Some(true));
}

#[test]
fn activity_flag_absent_without_attribute() {
    let s = ActorSnapshot::new();
    assert_eq!(TimeSeriesJumpData::from(&s).jump_is_active, None);
    assert_eq!(TimeSeriesFlipCarData::from(&s).flip_car_is_active, None);
}

#[test]
fn activity_flag_absent_on_wrong_tag() {
    let mut s = ActorSnapshot::new();
    s.push_attribute(
        active_attr_key(),
        AttributeValue::ActiveActor { active: true, actor: 3 },
    );
    assert_eq!(TimeSeriesJumpData::from(&s).jump_is_active, None);
}

#[test]
fn torque_vector_decodes_componentwise() {
    let mut s = ActorSnapshot::new();
    s.push_attribute(active_attr_key(), AttributeValue::Byte(1));
    s.push_attribute(
        torque_attr_key(),
        AttributeValue::Location {
            x_bits: 1.5f32.to_bits(),
            y_bits: (-2.0f32).to_bits(),
            z_bits: 0.0f32.to_bits(),
        },
    );
    let d = TimeSeriesDodgeData::from(&s);
    assert_eq!(d.dodge_is_active, Some(true));
    assert_eq!(d.dodge_torque_x, Some(1.5f32.to_bits()));
    assert_eq!(d.dodge_torque_y, Some((-2.0f32).to_bits()));
    assert_eq!(d.dodge_torque_z, Some(0.0f32.to_bits()));
}

#[test]
fn torque_absent_leaves_flag_alone() {
    let s = snapshot_with_byte(7);
    let d = TimeSeriesDodgeData::from(&s);
    assert_eq!(d.dodge_is_active, Some(true));
    assert_eq!(d.dodge_torque_x, None);
    assert_eq!(d.dodge_torque_y, None);
    assert_eq!(d.dodge_torque_z, None);
}

#[test]
fn torque_absent_on_wrong_tag() {
    let mut s = ActorSnapshot::new();
    s.push_attribute(torque_attr_key(), AttributeValue::Byte(5));
    let d = TimeSeriesDoubleJumpData::from(&s);
    assert_eq!(d.double_jump_is_active, None);
    assert_eq!(d.double_jump_torque_x, None);
    assert_eq!(d.double_jump_torque_y, None);
    assert_eq!(d.double_jump_torque_z, None);
}

#[test]
fn double_jump_reads_the_dodge_torque_attribute() {
    let mut s = ActorSnapshot::new();
    s.push_attribute(
        torque_attr_key(),
        AttributeValue::Location {
            x_bits: 3.0f32.to_bits(),
            y_bits: 4.0f32.to_bits(),
            z_bits: 5.0f32.to_bits(),
        },
    );
    let d = TimeSeriesDoubleJumpData::from(&s);
    assert_eq!(d.double_jump_torque_x, Some(3.0f32.to_bits()));
    assert_eq!(d.double_jump_torque_y, Some(4.0f32.to_bits()));
    assert_eq!(d.double_jump_torque_z, Some(5.0f32.to_bits()));
}

#[test]
fn unknown_attributes_are_ignored() {
    let mut s = ActorSnapshot::new();
    s.push_attribute("TAGame.Car_TA:TeamPaint".to_owned(), AttributeValue::Other);
    s.push_attribute(vehicle_attr_key(), AttributeValue::ActiveActor { active: true, actor: 1 });
    s.push_attribute(active_attr_key(), AttributeValue::Byte(2));
    let d = TimeSeriesJumpData::from(&s);
    assert_eq!(d.jump_is_active, Some(false));
}
