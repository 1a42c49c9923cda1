//! Properties of the aggregation pipeline as a whole.
//!
//! The handlers' own contracts describe one call each. The proofs here
//! relate several calls: repeating an update changes nothing further, one
//! player's updates never touch another player's series, and over a whole
//! run each player's series holds exactly the frames whose updates resolved
//! to that player.

use crate::attributes::AttributeEntry;
use crate::identity::{resolution, Resolution, WrappedUniqueId};
use crate::series::{series_of, store_after, updated_store};
use vstd::prelude::*;

verus! {

/// Applying one and the same update twice leaves the store exactly as
/// applying it once does: the repeated write is identical, and the later
/// one wins.
pub proof fn lemma_update_idempotent<T>(
    store: Map<WrappedUniqueId, Map<usize, T>>,
    r: Resolution,
    frame: usize,
    snapshot: T,
)
    ensures
        updated_store(updated_store(store, r, frame, snapshot), r, frame, snapshot)
            == updated_store(store, r, frame, snapshot),
{
    match r {
        Resolution::Resolved(player) => {
            let once = store_after(store, player, frame, snapshot);
            let series = series_of(store, player).insert(frame, snapshot);
            assert(series_of(once, player) == series);
            assert(series.insert(frame, snapshot) =~= series);
            assert(store_after(once, player, frame, snapshot) =~~= once);
        },
        _ => {},
    }
}

/// Recording a snapshot for one player leaves every other player's series
/// exactly as it was, and creates no series for anyone else.
pub proof fn lemma_cross_player_isolation<T>(
    store: Map<WrappedUniqueId, Map<usize, T>>,
    player: WrappedUniqueId,
    frame: usize,
    snapshot: T,
    other: WrappedUniqueId,
)
    requires
        other != player,
    ensures
        series_of(store_after(store, player, frame, snapshot), other) == series_of(store, other),
        store_after(store, player, frame, snapshot).contains_key(other) == store.contains_key(
            other,
        ),
{
}

/// One actor update as a handler sees it: the update's attributes and the
/// frame it arrived at.
pub struct UpdateEvent {
    pub attrs: Seq<AttributeEntry>,
    pub frame: usize,
}

/// The store after the updates in `events` are applied in order, each
/// snapshot decoded from the update's attributes by `snap_of`.
pub open spec fn run_updates<T>(
    store: Map<WrappedUniqueId, Map<usize, T>>,
    events: Seq<UpdateEvent>,
    car_map: Map<i32, i32>,
    id_map: Map<i32, WrappedUniqueId>,
    snap_of: spec_fn(Seq<AttributeEntry>) -> T,
) -> Map<WrappedUniqueId, Map<usize, T>>
    decreases events.len(),
{
    if events.len() == 0 {
        store
    } else {
        updated_store(
            run_updates(store, events.drop_last(), car_map, id_map, snap_of),
            resolution(events.last().attrs, car_map, id_map),
            events.last().frame,
            snap_of(events.last().attrs),
        )
    }
}

/// The frames of the updates in `events` that resolve to `player`.
pub open spec fn frames_for_player(
    events: Seq<UpdateEvent>,
    car_map: Map<i32, i32>,
    id_map: Map<i32, WrappedUniqueId>,
    player: WrappedUniqueId,
) -> Set<usize> {
    Set::new(
        |f: usize|
            exists|i: int|
                0 <= i < events.len() && (#[trigger] events[i]).frame == f && resolution(
                    events[i].attrs,
                    car_map,
                    id_map,
                ) == Resolution::Resolved(player),
    )
}

/// After a run of updates, each player's series holds exactly the frames it
/// held before together with the frames of the updates that resolved to
/// that player: no fewer, no more. In particular, a run from the empty
/// store leaves a player whose relevant updates start at some frame with no
/// entry at any earlier frame.
pub proof fn lemma_run_updates_frames<T>(
    store: Map<WrappedUniqueId, Map<usize, T>>,
    events: Seq<UpdateEvent>,
    car_map: Map<i32, i32>,
    id_map: Map<i32, WrappedUniqueId>,
    snap_of: spec_fn(Seq<AttributeEntry>) -> T,
    player: WrappedUniqueId,
)
    ensures
        series_of(run_updates(store, events, car_map, id_map, snap_of), player).dom()
            == series_of(store, player).dom() + frames_for_player(
            events,
            car_map,
            id_map,
            player,
        ),
    decreases events.len(),
{
    if events.len() == 0 {
        assert(frames_for_player(events, car_map, id_map, player) =~= Set::<usize>::empty());
        assert(series_of(store, player).dom() + frames_for_player(events, car_map, id_map, player)
            =~= series_of(store, player).dom());
    } else {
        let prefix = events.drop_last();
        let e = events.last();
        lemma_run_updates_frames(store, prefix, car_map, id_map, snap_of, player);
        let prior = run_updates(store, prefix, car_map, id_map, snap_of);
        let res = resolution(e.attrs, car_map, id_map);
        let after = updated_store(prior, res, e.frame, snap_of(e.attrs));

        assert forall|f: usize|
            frames_for_player(prefix, car_map, id_map, player).contains(
                f,
            ) implies frames_for_player(events, car_map, id_map, player).contains(f) by {
            let i = choose|i: int|
                0 <= i < prefix.len() && (#[trigger] prefix[i]).frame == f && resolution(
                    prefix[i].attrs,
                    car_map,
                    id_map,
                ) == Resolution::Resolved(player);
            assert(events[i] == prefix[i]);
        }

        match res {
            Resolution::Resolved(p) => {
                if p == player {
                    assert(series_of(after, player) == series_of(prior, player).insert(
                        e.frame,
                        snap_of(e.attrs),
                    ));
                    assert(events[events.len() - 1] == e);
                    assert(frames_for_player(events, car_map, id_map, player).contains(e.frame));
                    assert forall|f: usize|
                        frames_for_player(events, car_map, id_map, player).contains(f) && f
                            != e.frame implies frames_for_player(
                        prefix,
                        car_map,
                        id_map,
                        player,
                    ).contains(f) by {
                        let i = choose|i: int|
                            0 <= i < events.len() && (#[trigger] events[i]).frame == f
                                && resolution(events[i].attrs, car_map, id_map)
                                == Resolution::Resolved(player);
                        assert(i < events.len() - 1);
                        assert(prefix[i] == events[i]);
                    }
                    assert(series_of(after, player).dom() =~= series_of(store, player).dom()
                        + frames_for_player(events, car_map, id_map, player));
                } else {
                    assert(series_of(after, player) == series_of(prior, player));
                    assert forall|f: usize|
                        frames_for_player(events, car_map, id_map, player).contains(
                            f,
                        ) implies frames_for_player(prefix, car_map, id_map, player).contains(
                        f,
                    ) by {
                        let i = choose|i: int|
                            0 <= i < events.len() && (#[trigger] events[i]).frame == f
                                && resolution(events[i].attrs, car_map, id_map)
                                == Resolution::Resolved(player);
                        assert(i < events.len() - 1);
                        assert(prefix[i] == events[i]);
                    }
                    assert(frames_for_player(events, car_map, id_map, player) =~= frames_for_player(
                        prefix,
                        car_map,
                        id_map,
                        player,
                    ));
                }
            },
            _ => {
                assert(after == prior);
                assert forall|f: usize|
                    frames_for_player(events, car_map, id_map, player).contains(
                        f,
                    ) implies frames_for_player(prefix, car_map, id_map, player).contains(f) by {
                    let i = choose|i: int|
                        0 <= i < events.len() && (#[trigger] events[i]).frame == f && resolution(
                            events[i].attrs,
                            car_map,
                            id_map,
                        ) == Resolution::Resolved(player);
                    assert(i < events.len() - 1);
                    assert(prefix[i] == events[i]);
                }
                assert(frames_for_player(events, car_map, id_map, player) =~= frames_for_player(
                    prefix,
                    car_map,
                    id_map,
                    player,
                ));
            },
        }
    }
}

} // verus!
