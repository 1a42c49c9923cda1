//! Pure decoding of the attributes the mechanic handlers consult.
//!
//! Decoding is total: every update yields a value, and a missing attribute,
//! or one carrying a tag the field cannot read, leaves that field absent.
//! No error is ever raised from here.

use crate::attributes::{active_attr_key, active_attr_name, lookup_attribute, torque_attr_key,
    torque_attr_name, ActorSnapshot, AttributeEntry, AttributeValue};
use vstd::prelude::*;

verus! {

/// The activity flag of an update: present exactly when the activity
/// attribute is present and byte-tagged, and then true exactly when the
/// byte is odd. The upstream counter increments on each activation, so its
/// parity alone carries the current state.
pub open spec fn activity_flag_of(attrs: Seq<AttributeEntry>) -> Option<bool> {
    match lookup_attribute(attrs, active_attr_name()) {
        Some(AttributeValue::Byte(b)) => Some(b % 2 == 1),
        _ => None,
    }
}

/// The first torque component of an update: present exactly when the
/// torque attribute is present and vector-tagged.
pub open spec fn torque_x_of(attrs: Seq<AttributeEntry>) -> Option<u32> {
    match lookup_attribute(attrs, torque_attr_name()) {
        Some(AttributeValue::Location { x_bits, .. }) => Some(x_bits),
        _ => None,
    }
}

/// The second torque component; present under the same condition.
pub open spec fn torque_y_of(attrs: Seq<AttributeEntry>) -> Option<u32> {
    match lookup_attribute(attrs, torque_attr_name()) {
        Some(AttributeValue::Location { y_bits, .. }) => Some(y_bits),
        _ => None,
    }
}

/// The third torque component; present under the same condition.
pub open spec fn torque_z_of(attrs: Seq<AttributeEntry>) -> Option<u32> {
    match lookup_attribute(attrs, torque_attr_name()) {
        Some(AttributeValue::Location { z_bits, .. }) => Some(z_bits),
        _ => None,
    }
}

/// For every byte value the activity attribute can carry, the decoded flag
/// is present and true exactly when that byte is odd.
pub proof fn lemma_activity_flag_parity(attrs: Seq<AttributeEntry>, b: u8)
    requires
        lookup_attribute(attrs, active_attr_name()) == Some(AttributeValue::Byte(b)),
    ensures
        activity_flag_of(attrs) == Some(b % 2 == 1),
{
}

/// Decode the activity flag of `actor`.
pub fn decode_activity_flag(actor: &ActorSnapshot) -> (r: Option<bool>)
    ensures
        r == activity_flag_of(actor.attributes@),
{
    let key = active_attr_key();
    match actor.get_attribute(&key) {
        Some(AttributeValue::Byte(b)) => {
            proof {
                assert((b & 1 != 0) == (b % 2 == 1)) by (bit_vector);
            }
            Some(b & 1 != 0)
        },
        _ => None,
    }
}

/// Decode the three torque components of `actor`; all present or all
/// absent, since they come from one vector attribute.
pub fn decode_torque(actor: &ActorSnapshot) -> (r: (Option<u32>, Option<u32>, Option<u32>))
    ensures
        r.0 == torque_x_of(actor.attributes@),
        r.1 == torque_y_of(actor.attributes@),
        r.2 == torque_z_of(actor.attributes@),
{
    let key = torque_attr_key();
    match actor.get_attribute(&key) {
        Some(AttributeValue::Location { x_bits, y_bits, z_bits }) => (
            Some(x_bits),
            Some(y_bits),
            Some(z_bits),
        ),
        _ => (None, None, None),
    }
}

} // verus!
