//! The Session Registry: a process-wide cache mapping a player identifier to
//! the session handle and the subscription tokens attached for it.
//!
//! The registry is modelled as a finite map from player identifier to
//! [`SessionStore`]; the implementation keeps one entry per identifier, so
//! attaching twice can never hold two token sets for one player.

use vstd::prelude::*;

verus! {

/// The three per-session subscription tokens: one for each change
/// notification (metadata, playback, timeline). Each token is created by
/// exactly one subscribe call and must be handed to exactly one matching
/// unsubscribe call.
#[derive(Clone, Copy, PartialEq, Eq, Structural, Debug)]
pub struct EventStore {
    pub metadata_token: i64,
    pub playback_token: i64,
    pub timeline_token: i64,
}

/// One registry value: the platform session handle this entry was attached
/// for, and the tokens needed to cancel its three subscriptions.
#[derive(Clone, Copy, PartialEq, Eq, Structural, Debug)]
pub struct SessionStore {
    /// Opaque identifier of the platform session object; the shell keeps the
    /// actual platform reference under this identifier.
    pub session: u64,
    pub event_tokens: EventStore,
}

/// One registry entry: a player identifier with its attached store.
#[derive(Debug)]
pub struct RegistryEntry {
    pub player_id: String,
    pub store: SessionStore,
}

impl View for RegistryEntry {
    type V = (Seq<char>, SessionStore);

    open spec fn view(&self) -> (Seq<char>, SessionStore) {
        (self.player_id@, self.store)
    }
}

/// The map denoted by a sequence of entries; later entries win, though a
/// well-formed registry never holds two entries for one identifier.
pub open spec fn registry_map_of(entries: Seq<RegistryEntry>) -> Map<Seq<char>, SessionStore>
    decreases entries.len(),
{
    if entries.len() == 0 {
        Map::empty()
    } else {
        registry_map_of(entries.drop_last()).insert(
            entries.last().player_id@,
            entries.last().store,
        )
    }
}

/// No two entries name the same player.
pub open spec fn distinct_player_ids(entries: Seq<RegistryEntry>) -> bool {
    forall|i: int, j: int|
        0 <= i < j < entries.len() ==> entries[i].player_id@ != entries[j].player_id@
}

/// The Session Registry. At most one entry exists per player id at any time.
pub struct SessionRegistry {
    entries: Vec<RegistryEntry>,
}

impl View for SessionRegistry {
    type V = Map<Seq<char>, SessionStore>;

    closed spec fn view(&self) -> Map<Seq<char>, SessionStore> {
        registry_map_of(self.entries@)
    }
}

proof fn lemma_registry_map_contains(entries: Seq<RegistryEntry>, k: Seq<char>)
    ensures
        registry_map_of(entries).contains_key(k) <==> (exists|i: int|
            0 <= i < entries.len() && entries[i].player_id@ == k),
    decreases entries.len(),
{
    if entries.len() > 0 {
        lemma_registry_map_contains(entries.drop_last(), k);
        if entries.last().player_id@ == k {
            assert(entries[entries.len() - 1].player_id@ == k);
        } else {
            if exists|i: int| 0 <= i < entries.len() && entries[i].player_id@ == k {
                let i = choose|i: int| 0 <= i < entries.len() && entries[i].player_id@ == k;
                assert(entries.drop_last()[i].player_id@ == k);
            }
            if exists|i: int|
                0 <= i < entries.drop_last().len() && entries.drop_last()[i].player_id@ == k {
                let i = choose|i: int|
                    0 <= i < entries.drop_last().len() && entries.drop_last()[i].player_id@ == k;
                assert(entries[i].player_id@ == k);
            }
        }
    }
}

proof fn lemma_registry_map_index(entries: Seq<RegistryEntry>, i: int)
    requires
        distinct_player_ids(entries),
        0 <= i < entries.len(),
    ensures
        registry_map_of(entries).contains_key(entries[i].player_id@),
        registry_map_of(entries)[entries[i].player_id@] == entries[i].store,
    decreases entries.len(),
{
    if i < entries.len() - 1 {
        lemma_registry_map_index(entries.drop_last(), i);
        assert(entries.drop_last()[i] == entries[i]);
    }
}

proof fn lemma_registry_map_len(entries: Seq<RegistryEntry>)
    requires
        distinct_player_ids(entries),
    ensures
        registry_map_of(entries).dom().finite(),
        registry_map_of(entries).dom().len() == entries.len(),
    decreases entries.len(),
{
    broadcast use vstd::set::group_set_axioms;

    if entries.len() > 0 {
        lemma_registry_map_len(entries.drop_last());
        lemma_registry_map_contains(entries.drop_last(), entries.last().player_id@);
        assert(!registry_map_of(entries.drop_last()).contains_key(entries.last().player_id@));
    }
}

impl SessionRegistry {
    /// The internal one-entry-per-player invariant; every public operation
    /// preserves it.
    pub closed spec fn well_formed(&self) -> bool {
        distinct_player_ids(self.entries@)
    }

    pub fn new() -> (r: SessionRegistry)
        ensures
            r.well_formed(),
            r@ == Map::<Seq<char>, SessionStore>::empty(),
    {
        SessionRegistry { entries: Vec::new() }
    }

    /// Whether a listener set is already attached for this player.
    pub fn contains_key(&self, player_id: &String) -> (r: bool)
        requires
            self.well_formed(),
        ensures
            r == self@.contains_key(player_id@),
    {
        let n = self.entries.len();
        let mut i: usize = 0;
        while i < n
            invariant
                n == self.entries@.len(),
                0 <= i <= n,
                forall|j: int| 0 <= j < i ==> self.entries@[j].player_id@ != player_id@,
            decreases n - i,
        {
            if self.entries[i].player_id == *player_id {
                proof {
                    assert(self.entries@[i as int].player_id@ == player_id@);
                    lemma_registry_map_contains(self.entries@, player_id@);
                }
                return true;
            }
            i += 1;
        }
        proof {
            lemma_registry_map_contains(self.entries@, player_id@);
        }
        false
    }

    /// Look the player up, returning the stored handle and tokens.
    pub fn get(&self, player_id: &String) -> (r: Option<SessionStore>)
        requires
            self.well_formed(),
        ensures
            match r {
                Some(store) => self@.contains_key(player_id@) && self@[player_id@] == store,
                None => !self@.contains_key(player_id@),
            },
    {
        let n = self.entries.len();
        let mut i: usize = 0;
        while i < n
            invariant
                self.well_formed(),
                n == self.entries@.len(),
                0 <= i <= n,
                forall|j: int| 0 <= j < i ==> self.entries@[j].player_id@ != player_id@,
            decreases n - i,
        {
            if self.entries[i].player_id == *player_id {
                proof {
                    assert(self.entries@[i as int].player_id@ == player_id@);
                    lemma_registry_map_index(self.entries@, i as int);
                }
                return Some(self.entries[i].store);
            }
            i += 1;
        }
        proof {
            lemma_registry_map_contains(self.entries@, player_id@);
        }
        None
    }

    /// Record a freshly attached listener set. The caller must have checked
    /// that no entry exists yet; this is what makes attach idempotent rather
    /// than leaky.
    pub fn insert(&mut self, player_id: String, store: SessionStore)
        requires
            old(self).well_formed(),
            !old(self)@.contains_key(player_id@),
        ensures
            final(self).well_formed(),
            final(self)@ == old(self)@.insert(player_id@, store),
    {
        proof {
            lemma_registry_map_contains(self.entries@, player_id@);
        }
        let ghost old_entries = self.entries@;
        self.entries.push(RegistryEntry { player_id, store });
        proof {
            assert(self.entries@.drop_last() =~= old_entries);
        }
    }

    /// Drop the entry for this player, handing back the tokens to cancel.
    /// Removing an absent player is a defined no-op.
    pub fn remove(&mut self, player_id: &String) -> (r: Option<SessionStore>)
        requires
            old(self).well_formed(),
        ensures
            final(self).well_formed(),
            final(self)@ == old(self)@.remove(player_id@),
            r == if old(self)@.contains_key(player_id@) {
                Some(old(self)@[player_id@])
            } else {
                None::<SessionStore>
            },
    {
        let n = self.entries.len();
        let mut i: usize = 0;
        while i < n
            invariant
                self.well_formed(),
                self.entries@ == old(self).entries@,
                n == self.entries@.len(),
                0 <= i <= n,
                forall|j: int| 0 <= j < i ==> self.entries@[j].player_id@ != player_id@,
            decreases n - i,
        {
            if self.entries[i].player_id == *player_id {
                proof {
                    assert(self.entries@[i as int].player_id@ == player_id@);
                    lemma_registry_map_index(self.entries@, i as int);
                    lemma_registry_map_remove(self.entries@, i as int);
                }
                let ghost pre = self.entries@;
                let entry = self.entries.remove(i);
                proof {
                    assert(self.entries@ == pre.remove(i as int));
                    assert(registry_map_of(self.entries@) == registry_map_of(pre).remove(
                        player_id@,
                    ));
                }
                return Some(entry.store);
            }
            i += 1;
        }
        proof {
            lemma_registry_map_contains(self.entries@, player_id@);
            assert(!old(self)@.contains_key(player_id@));
            assert(old(self)@.remove(player_id@) =~= old(self)@);
        }
        None
    }

    /// How many players currently hold an entry.
    pub fn num_entries(&self) -> (n: usize)
        requires
            self.well_formed(),
        ensures
            n == self@.dom().len(),
    {
        proof {
            lemma_registry_map_len(self.entries@);
        }
        self.entries.len()
    }
}

/// Holds of an entry whose player was enumerated by the current poll.
pub open spec fn observed_pred(obs: Set<Seq<char>>) -> spec_fn(RegistryEntry) -> bool {
    |e: RegistryEntry| obs.contains(e.player_id@)
}

/// Holds of an entry whose player has vanished from the enumeration.
pub open spec fn vanished_pred(obs: Set<Seq<char>>) -> spec_fn(RegistryEntry) -> bool {
    |e: RegistryEntry| !obs.contains(e.player_id@)
}

/// Whether this player id is among the observed ones.
fn id_list_contains(ids: &Vec<String>, id: &String) -> (r: bool)
    ensures
        r == ids.deep_view().contains(id@),
{
    let n = ids.len();
    let mut i: usize = 0;
    while i < n
        invariant
            n == ids@.len(),
            0 <= i <= n,
            forall|j: int| 0 <= j < i ==> ids.deep_view()[j] != id@,
        decreases n - i,
    {
        if ids[i] == *id {
            proof {
                assert(ids.deep_view()[i as int] == id@);
            }
            return true;
        }
        i += 1;
    }
    false
}

proof fn lemma_filter_distinct(entries: Seq<RegistryEntry>, pred: spec_fn(RegistryEntry) -> bool)
    requires
        distinct_player_ids(entries),
    ensures
        distinct_player_ids(entries.filter(pred)),
    decreases entries.len(),
{
    reveal(Seq::filter);
    if entries.len() > 0 {
        let dl = entries.drop_last();
        assert(distinct_player_ids(dl)) by {
            assert(forall|i: int| 0 <= i < dl.len() ==> dl[i] == entries[i]);
        }
        lemma_filter_distinct(dl, pred);
        if pred(entries.last()) {
            let f = dl.filter(pred);
            assert forall|i: int| 0 <= i < f.len() implies f[i].player_id@
                != entries.last().player_id@ by {
                assert(f.contains(f[i]));
                dl.lemma_filter_contains_rev(pred, f[i]);
                let j = choose|j: int| 0 <= j < dl.len() && dl[j] == f[i];
                assert(entries[j] == dl[j]);
            }
            assert(entries.filter(pred) == f.push(entries.last()));
        }
    }
}

proof fn lemma_registry_map_restrict(entries: Seq<RegistryEntry>, obs: Set<Seq<char>>)
    requires
        distinct_player_ids(entries),
    ensures
        registry_map_of(entries.filter(observed_pred(obs))) == registry_map_of(entries).restrict(
            obs,
        ),
    decreases entries.len(),
{
    broadcast use vstd::set::group_set_axioms;

    reveal(Seq::filter);
    let pred = observed_pred(obs);
    if entries.len() == 0 {
        assert(registry_map_of(entries).restrict(obs) =~= registry_map_of(entries));
    } else {
        let dl = entries.drop_last();
        let last = entries.last();
        assert(distinct_player_ids(dl)) by {
            assert(forall|i: int| 0 <= i < dl.len() ==> dl[i] == entries[i]);
        }
        lemma_registry_map_restrict(dl, obs);
        if pred(last) {
            assert(dl.filter(pred).push(last).drop_last() =~= dl.filter(pred));
            assert(registry_map_of(entries.filter(pred)) == registry_map_of(dl.filter(pred)).insert(
                last.player_id@,
                last.store,
            ));
            assert(registry_map_of(entries).restrict(obs) =~= registry_map_of(dl).restrict(
                obs,
            ).insert(last.player_id@, last.store));
        } else {
            assert(registry_map_of(entries).restrict(obs) =~= registry_map_of(dl).restrict(obs));
        }
    }
}

impl SessionRegistry {
    /// The Reconciler: remove every entry whose player id was not observed by
    /// the poll that just completed, handing back each removed entry exactly
    /// once so that its three tokens can be cancelled. Entries for observed
    /// players are untouched, so a session seen by two consecutive polls is
    /// never spuriously detached.
    #[verifier::loop_isolation(false)]
    pub fn reconcile(&mut self, observed: &Vec<String>) -> (detached: Vec<RegistryEntry>)
        requires
            old(self).well_formed(),
        ensures
            final(self).well_formed(),
            final(self)@ == old(self)@.restrict(observed.deep_view().to_set()),
            forall|i: int|
                0 <= i < detached@.len() ==> {
                    let e = #[trigger] detached@[i];
                    &&& old(self)@.contains_key(e.player_id@)
                    &&& old(self)@[e.player_id@] == e.store
                    &&& !observed.deep_view().to_set().contains(e.player_id@)
                },
            forall|k: Seq<char>|
                #[trigger] old(self)@.contains_key(k) && !observed.deep_view().to_set().contains(k)
                    ==> exists|i: int|
                    0 <= i < detached@.len() && (#[trigger] detached@[i]).player_id@ == k,
            forall|i: int, j: int|
                0 <= i < j < detached@.len() ==> detached@[i].player_id@
                    != detached@[j].player_id@,
    {
        broadcast use vstd::set::group_set_axioms;

        let ghost orig = self.entries@;
        let ghost obs = observed.deep_view().to_set();
        let ghost keep = observed_pred(obs);
        let ghost gone = vanished_pred(obs);
        let mut kept: Vec<RegistryEntry> = Vec::new();
        let mut detached: Vec<RegistryEntry> = Vec::new();
        while self.entries.len() > 0
            invariant
                self.entries@.len() <= orig.len(),
                self.entries@ == orig.skip(orig.len() - self.entries@.len()),
                kept@ == orig.take(orig.len() - self.entries@.len()).filter(keep),
                detached@ == orig.take(orig.len() - self.entries@.len()).filter(gone),
            decreases self.entries@.len(),
        {
            let ghost p = orig.len() - self.entries@.len();
            let e = self.entries.remove(0);
            proof {
                reveal(Seq::filter);
                assert(e == orig[p]);
                assert(self.entries@ =~= orig.skip(p + 1));
                assert(orig.take(p + 1).drop_last() =~= orig.take(p));
                assert(orig.take(p + 1).last() == orig[p]);
            }
            if id_list_contains(observed, &e.player_id) {
                kept.push(e);
                proof {
                    reveal(Seq::filter);
                    assert(kept@ == orig.take(p + 1).filter(keep));
                    assert(detached@ == orig.take(p + 1).filter(gone));
                }
            } else {
                detached.push(e);
                proof {
                    reveal(Seq::filter);
                    assert(kept@ == orig.take(p + 1).filter(keep));
                    assert(detached@ == orig.take(p + 1).filter(gone));
                }
            }
        }
        proof {
            assert(orig.take(orig.len() as int) =~= orig);
            assert(kept@ == orig.filter(keep));
            assert(detached@ == orig.filter(gone));
        }
        self.entries = kept;
        proof {
            lemma_filter_distinct(orig, keep);
            lemma_filter_distinct(orig, gone);
            lemma_registry_map_restrict(orig, obs);
            broadcast use vstd::seq_lib::group_seq_properties;

            let d = orig.filter(gone);
            assert forall|i: int| 0 <= i < d.len() implies {
                let e = #[trigger] d[i];
                &&& registry_map_of(orig).contains_key(e.player_id@)
                &&& registry_map_of(orig)[e.player_id@] == e.store
                &&& !obs.contains(e.player_id@)
            } by {
                orig.lemma_filter_pred(gone, i);
                assert(d.contains(d[i]));
                orig.lemma_filter_contains_rev(gone, d[i]);
                let j = choose|j: int| 0 <= j < orig.len() && orig[j] == d[i];
                lemma_registry_map_index(orig, j);
            }
            assert forall|k: Seq<char>|
                #[trigger] registry_map_of(orig).contains_key(k) && !obs.contains(k) implies exists|
                i: int,
            | 0 <= i < d.len() && (#[trigger] d[i]).player_id@ == k by {
                lemma_registry_map_contains(orig, k);
                let j = choose|j: int| 0 <= j < orig.len() && orig[j].player_id@ == k;
                orig.lemma_filter_contains(gone, j);
                assert(d.contains(orig[j]));
                let i = choose|i: int| 0 <= i < d.len() && d[i] == orig[j];
                assert(d[i].player_id@ == k);
            }
        }
        detached
    }
}

proof fn lemma_registry_map_remove(entries: Seq<RegistryEntry>, i: int)
    requires
        distinct_player_ids(entries),
        0 <= i < entries.len(),
    ensures
        distinct_player_ids(entries.remove(i)),
        registry_map_of(entries.remove(i)) == registry_map_of(entries).remove(
            entries[i].player_id@,
        ),
    decreases entries.len(),
{
    let k = entries[i].player_id@;
    if i == entries.len() - 1 {
        assert(entries.remove(i) =~= entries.drop_last());
        lemma_registry_map_contains(entries.drop_last(), k);
        assert(!registry_map_of(entries.drop_last()).contains_key(k));
        assert(registry_map_of(entries).remove(k) =~= registry_map_of(entries.drop_last()));
    } else {
        lemma_registry_map_remove(entries.drop_last(), i);
        assert(entries.remove(i).drop_last() =~= entries.drop_last().remove(i));
        assert(entries.remove(i).last() == entries.last());
        let k_last = entries.last().player_id@;
        assert(entries[entries.len() - 1].player_id@ == k_last);
        assert(k != k_last);
        assert(registry_map_of(entries.remove(i)) == registry_map_of(
            entries.drop_last().remove(i),
        ).insert(k_last, entries.last().store));
        assert(registry_map_of(entries.drop_last()).remove(k).insert(k_last, entries.last().store)
            =~= registry_map_of(entries.drop_last()).insert(k_last, entries.last().store).remove(
            k,
        ));
    }
}

} // verus!
