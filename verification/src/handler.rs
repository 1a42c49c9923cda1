//! The insert-or-create step shared by every mechanic handler.
//!
//! Each handler decodes its own snapshot record, then records it here:
//! resolve the update to a stable player identity, and insert the snapshot
//! into that player's series, creating the series on the player's first
//! appearance. The capacity hint for a fresh series is the number of frames
//! still to come, so a player appearing late does not grow its series
//! repeatedly; the hint never affects what is stored.

use crate::attributes::ActorSnapshot;
use crate::identity::{resolution, resolve_player, ActorMap, IdentityViolation, Resolution,
    WrappedUniqueId};
use crate::series::{updated_store, PlayerStore};
use vstd::prelude::*;

verus! {

/// Resolve `actor` against the identity maps and record `snapshot` at
/// `frame_number` for the resolved player.
///
/// The store changes exactly as `updated_store` says: an update without a
/// linked, player-driven car leaves it untouched. `Err` is returned exactly
/// when the car's player actor has no stable identity, and then the store
/// is untouched too.
pub fn apply_update<T: Copy>(
    store: &mut PlayerStore<T>,
    snapshot: T,
    actor: &ActorSnapshot,
    frame_number: usize,
    frame_count: usize,
    car_map: &ActorMap<i32>,
    id_map: &ActorMap<WrappedUniqueId>,
) -> (r: Result<(), IdentityViolation>)
    ensures
        ({
            let res = resolution(actor.attributes@, car_map@, id_map@);
            &&& final(store)@ == updated_store(old(store)@, res, frame_number, snapshot)
            &&& match res {
                Resolution::MissingIdentity(a) => r == Err::<(), IdentityViolation>(
                    IdentityViolation { player_actor_id: a },
                ),
                _ => r == Ok::<(), IdentityViolation>(()),
            }
        }),
{
    match resolve_player(actor, car_map, id_map) {
        Ok(Some(player)) => {
            let capacity_hint: usize = if frame_count >= frame_number {
                frame_count - frame_number
            } else {
                0
            };
            store.insert_snapshot(player, frame_number, capacity_hint, snapshot);
            Ok(())
        },
        Ok(None) => Ok(()),
        Err(violation) => Err(violation),
    }
}

} // verus!
