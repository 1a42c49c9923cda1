//! The double-jump mechanic: activity flag plus torque vector.
//!
//! The double-jump component reports its torque under the dodge component's
//! attribute name; the shared physical mechanism upstream reuses that
//! attribute, and this handler reads it as the format defines it.

use crate::attributes::{lookup_attribute, vehicle_attr_name, ActorSnapshot, AttributeEntry,
    AttributeValue};
use crate::decode::{activity_flag_of, decode_activity_flag, decode_torque, torque_x_of,
    torque_y_of, torque_z_of};
use crate::handler::apply_update;
use crate::identity::{resolution, ActorMap, IdentityViolation, Resolution, WrappedUniqueId};
use crate::series::{updated_store, PlayerStore};
use vstd::prelude::*;

verus! {

/// Snapshot of the double-jump component at one frame. Each torque
/// component is the bit pattern of the decoder's single-precision value; a
/// component is present exactly when the torque attribute was present and
/// vector-tagged.
#[derive(Clone, Copy, Debug, PartialEq, Eq)]
pub struct TimeSeriesDoubleJumpData {
    pub double_jump_is_active: Option<bool>,
    pub double_jump_torque_x: Option<u32>,
    pub double_jump_torque_y: Option<u32>,
    pub double_jump_torque_z: Option<u32>,
}

/// The double-jump snapshot an update decodes to.
pub open spec fn double_jump_data_of(attrs: Seq<AttributeEntry>) -> TimeSeriesDoubleJumpData {
    TimeSeriesDoubleJumpData {
        double_jump_is_active: activity_flag_of(attrs),
        double_jump_torque_x: torque_x_of(attrs),
        double_jump_torque_y: torque_y_of(attrs),
        double_jump_torque_z: torque_z_of(attrs),
    }
}

impl TimeSeriesDoubleJumpData {
    /// Decode the double-jump snapshot from one actor update. Decoding is
    /// total: a missing or differently-tagged attribute leaves its fields
    /// absent.
    pub fn from(actor: &ActorSnapshot) -> (r: Self)
        ensures
            r == double_jump_data_of(actor.attributes@),
    {
        let double_jump_is_active = decode_activity_flag(actor);
        let (double_jump_torque_x, double_jump_torque_y, double_jump_torque_z) = decode_torque(
            actor,
        );
        TimeSeriesDoubleJumpData {
            double_jump_is_active,
            double_jump_torque_x,
            double_jump_torque_y,
            double_jump_torque_z,
        }
    }
}

/// Collects each tracked player's double-jump snapshots, frame by frame.
pub struct DoubleJumpHandler {
    /// How many frames the replay holds; only a capacity hint for fresh
    /// series, never a bound on the frames accepted.
    pub frame_count: usize,
    /// The per-player double-jump time series built so far.
    pub store: PlayerStore<TimeSeriesDoubleJumpData>,
}

impl DoubleJumpHandler {
    /// A handler for a replay of `frame_count` frames, with nothing
    /// recorded yet.
    pub fn new(frame_count: usize) -> (h: Self)
        ensures
            h.frame_count == frame_count,
            h.store@ == Map::<WrappedUniqueId, Map<usize, TimeSeriesDoubleJumpData>>::empty(),
    {
        DoubleJumpHandler { frame_count, store: PlayerStore::new() }
    }

    /// Process one actor update at `frame_number`.
    ///
    /// When the update's vehicle reference resolves to a stable player, that
    /// player's series gains the decoded snapshot at `frame_number`,
    /// overwriting any earlier snapshot there; otherwise the store is left
    /// exactly as it was. `Err` is returned exactly when the linked player
    /// actor has no stable identity, the one caller-side invariant this
    /// handler cannot repair.
    pub fn update(
        &mut self,
        actor: &ActorSnapshot,
        frame_number: usize,
        car_map: &ActorMap<i32>,
        id_map: &ActorMap<WrappedUniqueId>,
    ) -> (r: Result<(), IdentityViolation>)
        ensures
            final(self).frame_count == old(self).frame_count,
            ({
                let res = resolution(actor.attributes@, car_map@, id_map@);
                &&& final(self).store@ == updated_store(
                    old(self).store@,
                    res,
                    frame_number,
                    double_jump_data_of(actor.attributes@),
                )
                &&& match res {
                    Resolution::MissingIdentity(a) => r == Err::<(), IdentityViolation>(
                        IdentityViolation { player_actor_id: a },
                    ),
                    _ => r == Ok::<(), IdentityViolation>(()),
                }
            }),
            !(lookup_attribute(actor.attributes@, vehicle_attr_name()) matches Some(
                AttributeValue::ActiveActor { .. },
            )) ==> final(self).store@ == old(self).store@,
            (match lookup_attribute(actor.attributes@, vehicle_attr_name()) {
                Some(AttributeValue::ActiveActor { actor: car, .. }) => !car_map@.contains_key(
                    car,
                ) ==> final(self).store@ == old(self).store@,
                _ => true,
            }),
    {
        let snapshot = TimeSeriesDoubleJumpData::from(actor);
        apply_update(
            &mut self.store,
            snapshot,
            actor,
            frame_number,
            self.frame_count,
            car_map,
            id_map,
        )
    }
}

} // verus!
