//! Identity resolution: from the car actor an update references to the
//! stable player identity that drives it.
//!
//! Actor identities are transient, per-session references maintained by the
//! replay decoder. The surrounding system keeps two maps current while
//! frames are processed: car actor to the player actor controlling it, and
//! player actor to a stable, platform-qualified player identity. The
//! handlers in this crate only read them.

use crate::assoc::{assoc_map, lemma_assoc_map_absent, lemma_assoc_map_dom_len,
    lemma_assoc_map_index, lemma_assoc_map_push, lemma_assoc_map_update, unique_keys};
use crate::attributes::{lookup_attribute, vehicle_attr_key, vehicle_attr_name, ActorSnapshot,
    AttributeEntry, AttributeValue};
use vstd::prelude::*;

verus! {

/// A stable, session-independent player identity: a platform tag together
/// with the player's identifier on that platform. Two updates belong to the
/// same player exactly when their resolved identities are equal.
#[derive(Clone, Copy, Debug, PartialEq, Eq, Hash, Structural)]
pub struct WrappedUniqueId {
    pub platform: u8,
    pub online_id: u64,
}

/// A finite map from transient actor identities to values of type `V`,
/// read through the view `@` as a `Map<i32, V>`.
#[derive(Debug)]
pub struct ActorMap<V> {
    entries: Vec<(i32, V)>,
}

impl<V> View for ActorMap<V> {
    type V = Map<i32, V>;

    closed spec fn view(&self) -> Map<i32, V> {
        assoc_map(self.entries@)
    }
}

impl<V> ActorMap<V> {
    #[verifier::type_invariant]
    spec fn well_formed(self) -> bool {
        unique_keys(self.entries@)
    }

    /// The empty map.
    pub fn new() -> (m: Self)
        ensures
            m@ == Map::<i32, V>::empty(),
    {
        ActorMap { entries: Vec::new() }
    }

    /// Map `key` to `value`, replacing any earlier value for `key`.
    pub fn insert(&mut self, key: i32, value: V)
        ensures
            final(self)@ == old(self)@.insert(key, value),
    {
        proof {
            use_type_invariant(&*self);
        }
        let mut entries: Vec<(i32, V)> = Vec::new();
        core::mem::swap(&mut entries, &mut self.entries);
        let n = entries.len();
        let mut i: usize = 0;
        while i < n && entries[i].0 != key
            invariant
                0 <= i <= n,
                n == entries@.len(),
                entries@ == old(self).entries@,
                forall|j: int| 0 <= j < i ==> entries@[j].0 != key,
            decreases n - i,
        {
            i += 1;
        }
        if i < n {
            proof {
                lemma_assoc_map_update(entries@, i as int, value);
            }
            entries.set(i, (key, value));
        } else {
            proof {
                lemma_assoc_map_push(entries@, key, value);
            }
            entries.push((key, value));
        }
        self.entries = entries;
    }

    /// How many actor identities the map covers.
    pub fn len(&self) -> (n: usize)
        ensures
            n == self@.dom().len(),
    {
        proof {
            use_type_invariant(self);
            lemma_assoc_map_dom_len(self.entries@);
        }
        self.entries.len()
    }
}

impl<V: Copy> ActorMap<V> {
    /// The value mapped to `key`, if any.
    pub fn get(&self, key: i32) -> (r: Option<V>)
        ensures
            r == if self@.contains_key(key) {
                Some(self@[key])
            } else {
                None::<V>
            },
    {
        proof {
            use_type_invariant(self);
        }
        let n = self.entries.len();
        let mut i: usize = 0;
        while i < n
            invariant
                0 <= i <= n,
                n == self.entries@.len(),
                unique_keys(self.entries@),
                self@ == assoc_map(self.entries@),
                forall|j: int| 0 <= j < i ==> self.entries@[j].0 != key,
            decreases n - i,
        {
            if self.entries[i].0 == key {
                proof {
                    lemma_assoc_map_index(self.entries@, i as int);
                }
                return Some(self.entries[i].1);
            }
            i += 1;
        }
        proof {
            lemma_assoc_map_absent(self.entries@, key);
        }
        None
    }
}

/// The outcome of resolving one actor update against the identity maps.
#[derive(Clone, Copy, Debug, PartialEq, Eq, Structural)]
pub enum Resolution {
    /// The update carries no actor-reference vehicle attribute, or the
    /// referenced car is not linked to any player: nothing to record.
    Irrelevant,
    /// The update belongs to this stable player identity.
    Resolved(WrappedUniqueId),
    /// The car is linked to a player actor that has no stable identity:
    /// the surrounding system broke its invariant. The payload is the
    /// player actor identity that the stable-identity map lacked.
    MissingIdentity(i32),
}

/// Error returned when a player actor resolved through the car map has no
/// entry in the stable-identity map.
#[derive(Clone, Copy, Debug, PartialEq, Eq, Structural)]
pub struct IdentityViolation {
    pub player_actor_id: i32,
}

/// How an update with attributes `attrs` resolves against the identity maps.
pub open spec fn resolution(
    attrs: Seq<AttributeEntry>,
    car_map: Map<i32, i32>,
    id_map: Map<i32, WrappedUniqueId>,
) -> Resolution {
    match lookup_attribute(attrs, vehicle_attr_name()) {
        Some(AttributeValue::ActiveActor { actor, .. }) => {
            if car_map.contains_key(actor) {
                let player_actor = car_map[actor];
                if id_map.contains_key(player_actor) {
                    Resolution::Resolved(id_map[player_actor])
                } else {
                    Resolution::MissingIdentity(player_actor)
                }
            } else {
                Resolution::Irrelevant
            }
        },
        _ => Resolution::Irrelevant,
    }
}

/// Resolve the car actor referenced by `actor`'s vehicle attribute to a
/// stable player identity.
///
/// `Ok(None)` means the update is irrelevant: it has no actor-reference
/// vehicle attribute, or the referenced car is not linked to a player.
/// `Err` reports a broken identity-map invariant and is returned exactly
/// when the linked player actor has no stable identity.
pub fn resolve_player(
    actor: &ActorSnapshot,
    car_map: &ActorMap<i32>,
    id_map: &ActorMap<WrappedUniqueId>,
) -> (r: Result<Option<WrappedUniqueId>, IdentityViolation>)
    ensures
        (match resolution(actor.attributes@, car_map@, id_map@) {
            Resolution::Irrelevant => r == Ok::<Option<WrappedUniqueId>, IdentityViolation>(None),
            Resolution::Resolved(p) => r == Ok::<Option<WrappedUniqueId>, IdentityViolation>(
                Some(p),
            ),
            Resolution::MissingIdentity(a) => r == Err::<Option<WrappedUniqueId>, IdentityViolation>(
                IdentityViolation { player_actor_id: a },
            ),
        }),
{
    let vehicle_key = vehicle_attr_key();
    match actor.get_attribute(&vehicle_key) {
        Some(AttributeValue::ActiveActor { active: _, actor: car_actor_id }) => {
            match car_map.get(car_actor_id) {
                Some(player_actor_id) => {
                    match id_map.get(player_actor_id) {
                        Some(player_id) => Ok(Some(player_id)),
                        None => Err(IdentityViolation { player_actor_id }),
                    }
                },
                None => Ok(None),
            }
        },
        _ => Ok(None),
    }
}

} // verus!
