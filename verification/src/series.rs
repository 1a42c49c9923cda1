//! Sparse per-player, per-frame time series of mechanic snapshots.
//!
//! Each mechanic handler owns one `PlayerStore`: a map from stable player
//! identity to that player's series, itself a sparse map from frame index
//! to the snapshot recorded there. A player's series exists exactly when at
//! least one update for that player has been recorded; recording twice at
//! one frame keeps the later snapshot.

use crate::assoc::{assoc_map, lemma_assoc_map_absent, lemma_assoc_map_dom_len,
    lemma_assoc_map_index, lemma_assoc_map_push, lemma_assoc_map_update, unique_keys};
use crate::identity::{Resolution, WrappedUniqueId};
use vstd::prelude::*;

verus! {

/// One player's series: snapshots of type `T`, keyed by frame index, read
/// through the view `@` as a `Map<usize, T>`.
#[derive(Debug)]
pub struct FrameSeries<T> {
    entries: Vec<(usize, T)>,
}

impl<T> View for FrameSeries<T> {
    type V = Map<usize, T>;

    closed spec fn view(&self) -> Map<usize, T> {
        assoc_map(self.entries@)
    }
}

impl<T> FrameSeries<T> {
    #[verifier::type_invariant]
    spec fn well_formed(self) -> bool {
        unique_keys(self.entries@)
    }

    /// An empty series.
    pub fn new() -> (s: Self)
        ensures
            s@ == Map::<usize, T>::empty(),
    {
        FrameSeries { entries: Vec::new() }
    }

    /// An empty series with room for `capacity` frames already allocated.
    /// The capacity is a performance hint only; the series grows past it
    /// when more frames arrive.
    pub fn with_capacity(capacity: usize) -> (s: Self)
        ensures
            s@ == Map::<usize, T>::empty(),
    {
        FrameSeries { entries: Vec::with_capacity(capacity) }
    }

    /// Record `snapshot` at `frame`, replacing any snapshot recorded there
    /// earlier.
    pub fn insert(&mut self, frame: usize, snapshot: T)
        ensures
            final(self)@ == old(self)@.insert(frame, snapshot),
    {
        proof {
            use_type_invariant(&*self);
        }
        let mut entries: Vec<(usize, T)> = Vec::new();
        core::mem::swap(&mut entries, &mut self.entries);
        let n = entries.len();
        let mut i: usize = 0;
        while i < n && entries[i].0 != frame
            invariant
                0 <= i <= n,
                n == entries@.len(),
                entries@ == old(self).entries@,
                forall|j: int| 0 <= j < i ==> entries@[j].0 != frame,
            decreases n - i,
        {
            i += 1;
        }
        if i < n {
            proof {
                lemma_assoc_map_update(entries@, i as int, snapshot);
            }
            entries.set(i, (frame, snapshot));
        } else {
            proof {
                lemma_assoc_map_push(entries@, frame, snapshot);
            }
            entries.push((frame, snapshot));
        }
        self.entries = entries;
    }

    /// How many frames the series has a snapshot for.
    pub fn len(&self) -> (n: usize)
        ensures
            n == self@.dom().len(),
    {
        proof {
            use_type_invariant(self);
            lemma_assoc_map_dom_len(self.entries@);
        }
        self.entries.len()
    }
}

impl<T: Copy> FrameSeries<T> {
    /// The snapshot recorded at `frame`, if any.
    pub fn get(&self, frame: usize) -> (r: Option<T>)
        ensures
            r == if self@.contains_key(frame) {
                Some(self@[frame])
            } else {
                None::<T>
            },
    {
        proof {
            use_type_invariant(self);
        }
        let n = self.entries.len();
        let mut i: usize = 0;
        while i < n
            invariant
                0 <= i <= n,
                n == self.entries@.len(),
                unique_keys(self.entries@),
                self@ == assoc_map(self.entries@),
                forall|j: int| 0 <= j < i ==> self.entries@[j].0 != frame,
            decreases n - i,
        {
            if self.entries[i].0 == frame {
                proof {
                    lemma_assoc_map_index(self.entries@, i as int);
                }
                return Some(self.entries[i].1);
            }
            i += 1;
        }
        proof {
            lemma_assoc_map_absent(self.entries@, frame);
        }
        None
    }
}

/// The series a store holds for `player`: the empty series when the store
/// has no entry for that player yet.
pub open spec fn series_of<T>(
    store: Map<WrappedUniqueId, Map<usize, T>>,
    player: WrappedUniqueId,
) -> Map<usize, T> {
    if store.contains_key(player) {
        store[player]
    } else {
        Map::empty()
    }
}

/// The store after `snapshot` is recorded for `player` at `frame`: the
/// player's series gains (or overwrites) that one frame, every other
/// player's series is untouched.
pub open spec fn store_after<T>(
    store: Map<WrappedUniqueId, Map<usize, T>>,
    player: WrappedUniqueId,
    frame: usize,
    snapshot: T,
) -> Map<WrappedUniqueId, Map<usize, T>> {
    store.insert(player, series_of(store, player).insert(frame, snapshot))
}

/// The store after one update whose identity resolution came out as `r`:
/// unchanged unless the update resolved to a player.
pub open spec fn updated_store<T>(
    store: Map<WrappedUniqueId, Map<usize, T>>,
    r: Resolution,
    frame: usize,
    snapshot: T,
) -> Map<WrappedUniqueId, Map<usize, T>> {
    match r {
        Resolution::Resolved(player) => store_after(store, player, frame, snapshot),
        _ => store,
    }
}

/// All tracked players' series for one mechanic, read through the view `@`
/// as a `Map<WrappedUniqueId, Map<usize, T>>`.
#[derive(Debug)]
pub struct PlayerStore<T> {
    entries: Vec<(WrappedUniqueId, FrameSeries<T>)>,
}

/// The map a list of per-player series denotes, each series read through
/// its own view.
spec fn store_map<T>(s: Seq<(WrappedUniqueId, FrameSeries<T>)>) -> Map<
    WrappedUniqueId,
    Map<usize, T>,
>
    decreases s.len(),
{
    if s.len() == 0 {
        Map::empty()
    } else {
        store_map(s.drop_last()).insert(s.last().0, s.last().1@)
    }
}

proof fn lemma_store_map_index<T>(s: Seq<(WrappedUniqueId, FrameSeries<T>)>, i: int)
    requires
        unique_keys(s),
        0 <= i < s.len(),
    ensures
        store_map(s).contains_key(s[i].0),
        store_map(s)[s[i].0] == s[i].1@,
    decreases s.len(),
{
    if i < s.len() - 1 {
        assert(unique_keys(s.drop_last()));
        lemma_store_map_index(s.drop_last(), i);
        assert(s.last().0 != s[i].0);
    }
}

proof fn lemma_store_map_absent<T>(s: Seq<(WrappedUniqueId, FrameSeries<T>)>, player: WrappedUniqueId)
    requires
        forall|j: int| 0 <= j < s.len() ==> s[j].0 != player,
    ensures
        !store_map(s).contains_key(player),
    decreases s.len(),
{
    if s.len() > 0 {
        lemma_store_map_absent(s.drop_last(), player);
    }
}

proof fn lemma_store_map_push<T>(
    s: Seq<(WrappedUniqueId, FrameSeries<T>)>,
    player: WrappedUniqueId,
    series: FrameSeries<T>,
)
    ensures
        store_map(s.push((player, series))) == store_map(s).insert(player, series@),
{
    assert(s.push((player, series)).drop_last() =~= s);
}

proof fn lemma_store_map_update<T>(
    s: Seq<(WrappedUniqueId, FrameSeries<T>)>,
    i: int,
    series: FrameSeries<T>,
)
    requires
        unique_keys(s),
        0 <= i < s.len(),
    ensures
        store_map(s.update(i, (s[i].0, series))) == store_map(s).insert(s[i].0, series@),
    decreases s.len(),
{
    let k = s[i].0;
    let t = s.update(i, (k, series));
    if i == s.len() - 1 {
        assert(t.drop_last() =~= s.drop_last());
        assert(t.last() == (k, series));
        assert(store_map(s.drop_last()).insert(k, s.last().1@).insert(k, series@) =~= store_map(
            s.drop_last(),
        ).insert(k, series@));
    } else {
        assert(unique_keys(s.drop_last()));
        assert(t.drop_last() =~= s.drop_last().update(i, (k, series)));
        lemma_store_map_update(s.drop_last(), i, series);
        assert(t.last() == s.last());
        assert(s.last().0 != k);
        assert(store_map(s.drop_last()).insert(k, series@).insert(s.last().0, s.last().1@)
            =~= store_map(s.drop_last()).insert(s.last().0, s.last().1@).insert(k, series@));
    }
}

impl<T> View for PlayerStore<T> {
    type V = Map<WrappedUniqueId, Map<usize, T>>;

    closed spec fn view(&self) -> Map<WrappedUniqueId, Map<usize, T>> {
        store_map(self.entries@)
    }
}

impl<T> PlayerStore<T> {
    #[verifier::type_invariant]
    spec fn well_formed(self) -> bool {
        unique_keys(self.entries@)
    }

    /// A store with no players.
    pub fn new() -> (s: Self)
        ensures
            s@ == Map::<WrappedUniqueId, Map<usize, T>>::empty(),
    {
        PlayerStore { entries: Vec::new() }
    }

    /// Record `snapshot` for `player` at `frame`. A player recorded for the
    /// first time gets a fresh series, allocated for `capacity_hint` frames;
    /// an existing series gains (or overwrites) the one frame.
    pub fn insert_snapshot(
        &mut self,
        player: WrappedUniqueId,
        frame: usize,
        capacity_hint: usize,
        snapshot: T,
    )
        ensures
            final(self)@ == store_after(old(self)@, player, frame, snapshot),
    {
        proof {
            use_type_invariant(&*self);
        }
        let ghost s0 = self.entries@;
        let mut entries: Vec<(WrappedUniqueId, FrameSeries<T>)> = Vec::new();
        core::mem::swap(&mut entries, &mut self.entries);
        let n = entries.len();
        let mut i: usize = 0;
        while i < n && !(entries[i].0 == player)
            invariant
                0 <= i <= n,
                n == entries@.len(),
                entries@ == s0,
                forall|j: int| 0 <= j < i ==> entries@[j].0 != player,
            decreases n - i,
        {
            i += 1;
        }
        if i < n {
            proof {
                lemma_store_map_index(s0, i as int);
            }
            let mut series = FrameSeries::new();
            core::mem::swap(&mut series, &mut entries[i].1);
            series.insert(frame, snapshot);
            proof {
                lemma_store_map_update(s0, i as int, series);
                assert(entries@.update(i as int, (player, series)) =~= s0.update(
                    i as int,
                    (s0[i as int].0, series),
                ));
            }
            entries.set(i, (player, series));
        } else {
            proof {
                lemma_store_map_absent(s0, player);
            }
            let mut series = FrameSeries::with_capacity(capacity_hint);
            series.insert(frame, snapshot);
            proof {
                lemma_store_map_push(s0, player, series);
            }
            entries.push((player, series));
        }
        self.entries = entries;
    }

    /// Whether at least one snapshot has been recorded for `player`.
    pub fn contains_player(&self, player: &WrappedUniqueId) -> (b: bool)
        ensures
            b == self@.contains_key(*player),
    {
        proof {
            use_type_invariant(self);
        }
        let n = self.entries.len();
        let mut i: usize = 0;
        while i < n
            invariant
                0 <= i <= n,
                n == self.entries@.len(),
                unique_keys(self.entries@),
                self@ == store_map(self.entries@),
                forall|j: int| 0 <= j < i ==> self.entries@[j].0 != *player,
            decreases n - i,
        {
            if self.entries[i].0 == *player {
                proof {
                    lemma_store_map_index(self.entries@, i as int);
                }
                return true;
            }
            i += 1;
        }
        proof {
            lemma_store_map_absent(self.entries@, *player);
        }
        false
    }

    /// How many frames `player`'s series holds; zero when the store has no
    /// series for `player`.
    pub fn series_len(&self, player: &WrappedUniqueId) -> (n: usize)
        ensures
            n == series_of(self@, *player).dom().len(),
    {
        proof {
            use_type_invariant(self);
        }
        let n = self.entries.len();
        let mut i: usize = 0;
        while i < n
            invariant
                0 <= i <= n,
                n == self.entries@.len(),
                unique_keys(self.entries@),
                self@ == store_map(self.entries@),
                forall|j: int| 0 <= j < i ==> self.entries@[j].0 != *player,
            decreases n - i,
        {
            if self.entries[i].0 == *player {
                proof {
                    lemma_store_map_index(self.entries@, i as int);
                }
                return self.entries[i].1.len();
            }
            i += 1;
        }
        proof {
            lemma_store_map_absent(self.entries@, *player);
            assert(series_of(self@, *player) =~= Map::<usize, T>::empty());
            assert(series_of(self@, *player).dom() =~= Set::<usize>::empty());
        }
        0
    }
}

impl<T: Copy> PlayerStore<T> {
    /// The snapshot recorded for `player` at `frame`, if any.
    pub fn snapshot_at(&self, player: &WrappedUniqueId, frame: usize) -> (r: Option<T>)
        ensures
            r == if series_of(self@, *player).contains_key(frame) {
                Some(series_of(self@, *player)[frame])
            } else {
                None::<T>
            },
    {
        proof {
            use_type_invariant(self);
        }
        let n = self.entries.len();
        let mut i: usize = 0;
        while i < n
            invariant
                0 <= i <= n,
                n == self.entries@.len(),
                unique_keys(self.entries@),
                self@ == store_map(self.entries@),
                forall|j: int| 0 <= j < i ==> self.entries@[j].0 != *player,
            decreases n - i,
        {
            if self.entries[i].0 == *player {
                proof {
                    lemma_store_map_index(self.entries@, i as int);
                }
                return self.entries[i].1.get(frame);
            }
            i += 1;
        }
        proof {
            lemma_store_map_absent(self.entries@, *player);
        }
        None
    }
}

} // verus!
