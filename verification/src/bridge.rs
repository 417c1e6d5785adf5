//! The Manager Singleton and the Session Listener Manager.
//!
//! The platform's media-session enumerator is owned by the I/O shell; this
//! module holds the verified bookkeeping around it: the lazily initialized
//! manager store with its two manager-level subscription tokens, the
//! attach/detach discipline for per-session listeners, and the laws that
//! make the whole poll cycle leak-free.
//!
//! A poll runs as: initialize the manager store once; replace the two
//! manager subscriptions; for each enumerated session, attach listeners only
//! if none are recorded; aggregate snapshots; reconcile by detaching every
//! player that was not observed.

use vstd::prelude::*;

use crate::registry::SessionStore;

verus! {

/// The Manager Store value: the platform manager handle together with the
/// two manager-level subscription tokens (sessions-changed and
/// current-session-changed), each present once installed.
#[derive(Clone, Copy, PartialEq, Eq, Structural, Debug)]
pub struct SessionManagerStore {
    /// Opaque identifier of the platform manager object held by the shell.
    pub session_manager: u64,
    pub session_token: Option<i64>,
    pub current_session_token: Option<i64>,
}

/// The tokens a manager store currently holds, in a fixed order.
pub open spec fn stored_manager_tokens(m: SessionManagerStore) -> Seq<i64> {
    (match m.session_token {
        Some(t) => seq![t],
        None => Seq::empty(),
    }) + (match m.current_session_token {
        Some(t) => seq![t],
        None => Seq::empty(),
    })
}

/// The store after one re-subscription: the same manager handle, holding
/// exactly the two new tokens.
pub open spec fn manager_resubscribed(m: SessionManagerStore, sessions_token: i64, current_session_token: i64) -> SessionManagerStore {
    SessionManagerStore {
        session_manager: m.session_manager,
        session_token: Some(sessions_token),
        current_session_token: Some(current_session_token),
    }
}

/// The lazily initialized singleton slot for the manager store. It is
/// created empty; the first poll installs the platform handle and every
/// poll thereafter reuses it.
pub struct ManagerStore {
    pub manager: Option<SessionManagerStore>,
}

impl ManagerStore {
    pub fn new() -> (r: ManagerStore)
        ensures
            r.manager is None,
    {
        ManagerStore { manager: None }
    }

    /// Whether the first poll still has to request the platform manager.
    pub fn is_initialized(&self) -> (r: bool)
        ensures
            r == (self.manager is Some),
    {
        self.manager.is_some()
    }

    /// Install the manager handle the platform returned. Happens exactly
    /// once: later polls find the store initialized and reuse it.
    pub fn initialize(&mut self, session_manager: u64)
        requires
            old(self).manager is None,
        ensures
            final(self).manager == Some(
                SessionManagerStore {
                    session_manager,
                    session_token: None,
                    current_session_token: None,
                },
            ),
    {
        self.manager = Some(
            SessionManagerStore { session_manager, session_token: None, current_session_token: None },
        );
    }

    /// The handle to enumerate sessions with, once initialized.
    pub fn manager_handle(&self) -> (r: Option<u64>)
        ensures
            match r {
                Some(h) => self.manager is Some && h == self.manager->0.session_manager,
                None => self.manager is None,
            },
    {
        match &self.manager {
            Some(store) => Some(store.session_manager),
            None => None,
        }
    }

    /// Replace the two manager-level subscriptions, as every poll does: the
    /// caller has subscribed the two new notifications and passes their
    /// tokens; the store keeps exactly those two, and hands back whatever
    /// tokens it held before so the caller can cancel each of them — once.
    pub fn ensure_manager_subscriptions(&mut self, sessions_token: i64, current_session_token: i64) -> (cancelled: Vec<i64>)
        requires
            old(self).manager is Some,
        ensures
            final(self).manager == Some(
                manager_resubscribed(old(self).manager->0, sessions_token, current_session_token),
            ),
            cancelled@ == stored_manager_tokens(old(self).manager->0),
    {
        let store = self.manager.unwrap();
        let mut cancelled: Vec<i64> = Vec::new();
        if let Some(t) = store.session_token {
            cancelled.push(t);
        }
        if let Some(t) = store.current_session_token {
            cancelled.push(t);
        }
        self.manager = Some(
            SessionManagerStore {
                session_manager: store.session_manager,
                session_token: Some(sessions_token),
                current_session_token: Some(current_session_token),
            },
        );
        proof {
            assert(cancelled@ =~= stored_manager_tokens(old(self).manager->0));
        }
        cancelled
    }
}

/// Law (manager re-subscription): polling twice in succession leaves the
/// manager holding exactly the second poll's two tokens; the second poll
/// cancels exactly the first poll's two, so at every point the store holds
/// two live tokens and no third is ever leaked.
pub proof fn lemma_manager_resubscription(
    fresh: SessionManagerStore,
    first_sessions: i64,
    first_current: i64,
    second_sessions: i64,
    second_current: i64,
)
    requires
        fresh.session_token is None,
        fresh.current_session_token is None,
    ensures
        ({
            let after_first = manager_resubscribed(fresh, first_sessions, first_current);
            let after_second = manager_resubscribed(
                after_first,
                second_sessions,
                second_current,
            );
            &&& stored_manager_tokens(fresh) == Seq::<i64>::empty()
            &&& stored_manager_tokens(after_first) == seq![first_sessions, first_current]
            &&& stored_manager_tokens(after_second) == seq![second_sessions, second_current]
            &&& after_second.session_manager == fresh.session_manager
        }),
{
    let after_first = manager_resubscribed(fresh, first_sessions, first_current);
    let after_second = manager_resubscribed(after_first, second_sessions, second_current);
    assert(stored_manager_tokens(fresh) =~= Seq::<i64>::empty());
    assert(stored_manager_tokens(after_first) =~= seq![first_sessions, first_current]);
    assert(stored_manager_tokens(after_second) =~= seq![second_sessions, second_current]);
}

/// The registry a poll leaves behind after attaching listeners for one
/// enumerated session: an existing entry is kept untouched (no second
/// subscription is made), a missing one is recorded.
pub open spec fn registry_after_attach(
    m: Map<Seq<char>, SessionStore>,
    player_id: Seq<char>,
    store: SessionStore,
) -> Map<Seq<char>, SessionStore> {
    if m.contains_key(player_id) {
        m
    } else {
        m.insert(player_id, store)
    }
}

/// The registry after detaching one player: its entry is gone; detaching an
/// absent player changes nothing.
pub open spec fn registry_after_detach(
    m: Map<Seq<char>, SessionStore>,
    player_id: Seq<char>,
) -> Map<Seq<char>, SessionStore> {
    m.remove(player_id)
}

/// Law (idempotent attach): attaching a second time for a player that is
/// still attached changes nothing — the registry keeps exactly the one
/// entry, with the tokens of the first attach, and holds no more entries
/// than before.
pub proof fn lemma_attach_idempotent(
    m: Map<Seq<char>, SessionStore>,
    player_id: Seq<char>,
    first: SessionStore,
    second: SessionStore,
)
    ensures
        registry_after_attach(registry_after_attach(m, player_id, first), player_id, second)
            == registry_after_attach(m, player_id, first),
        registry_after_attach(m, player_id, first).contains_key(player_id),
        !m.contains_key(player_id) ==> registry_after_attach(m, player_id, first)[player_id]
            == first,
        m.dom().finite() ==> registry_after_attach(m, player_id, first).dom().len() <= m.dom().len()
            + 1,
{
    broadcast use vstd::set::group_set_axioms;

    if !m.contains_key(player_id) {
        assert(registry_after_attach(m, player_id, first).dom() =~= m.dom().insert(player_id));
    }
}

/// Law (detach then detach): detaching is a no-op on an already-detached or
/// unknown player, so a second detach of the same player never errors and
/// leaves the registry exactly as the first left it.
pub proof fn lemma_detach_idempotent(m: Map<Seq<char>, SessionStore>, player_id: Seq<char>)
    ensures
        registry_after_detach(registry_after_detach(m, player_id), player_id)
            == registry_after_detach(m, player_id),
        !registry_after_detach(m, player_id).contains_key(player_id),
{
    assert(m.remove(player_id).remove(player_id) =~= m.remove(player_id));
}

/// The registry after the attach phase of a poll has walked the enumerated
/// sessions in order; each element pairs a player id with the store that is
/// recorded if listeners have to be attached for it.
pub open spec fn registry_after_attaches(
    m: Map<Seq<char>, SessionStore>,
    sessions: Seq<(Seq<char>, SessionStore)>,
) -> Map<Seq<char>, SessionStore>
    decreases sessions.len(),
{
    if sessions.len() == 0 {
        m
    } else {
        registry_after_attach(
            registry_after_attaches(m, sessions.drop_last()),
            sessions.last().0,
            sessions.last().1,
        )
    }
}

/// The player ids a poll observed.
pub open spec fn poll_observed_ids(sessions: Seq<(Seq<char>, SessionStore)>) -> Set<Seq<char>> {
    sessions.map_values(|s: (Seq<char>, SessionStore)| s.0).to_set()
}

/// The registry after one complete poll: attach listeners for every
/// enumerated session, then reconcile by detaching every player that was
/// not observed.
pub open spec fn registry_after_poll(
    m: Map<Seq<char>, SessionStore>,
    sessions: Seq<(Seq<char>, SessionStore)>,
) -> Map<Seq<char>, SessionStore> {
    registry_after_attaches(m, sessions).restrict(poll_observed_ids(sessions))
}

proof fn lemma_attaches_domain(m: Map<Seq<char>, SessionStore>, sessions: Seq<(Seq<char>, SessionStore)>)
    ensures
        registry_after_attaches(m, sessions).dom() =~= m.dom().union(poll_observed_ids(sessions)),
    decreases sessions.len(),
{
    broadcast use vstd::set::group_set_axioms;

    if sessions.len() == 0 {
        assert(poll_observed_ids(sessions) =~= Set::<Seq<char>>::empty());
    } else {
        let dl = sessions.drop_last();
        lemma_attaches_domain(m, dl);
        assert(sessions.map_values(|s: (Seq<char>, SessionStore)| s.0).drop_last() =~= dl.map_values(
            |s: (Seq<char>, SessionStore)| s.0,
        ));
        assert forall|k: Seq<char>|
            poll_observed_ids(sessions).contains(k) implies poll_observed_ids(dl).contains(k)
            || k == sessions.last().0 by {
            let ids = sessions.map_values(|s: (Seq<char>, SessionStore)| s.0);
            let i = choose|i: int| 0 <= i < ids.len() && ids[i] == k;
            if i < ids.len() - 1 {
                assert(dl.map_values(|s: (Seq<char>, SessionStore)| s.0)[i] == k);
            }
        }
        assert forall|k: Seq<char>|
            poll_observed_ids(dl).contains(k) implies poll_observed_ids(sessions).contains(
            k,
        ) by {
            let ids = dl.map_values(|s: (Seq<char>, SessionStore)| s.0);
            let i = choose|i: int| 0 <= i < ids.len() && ids[i] == k;
            assert(sessions.map_values(|s: (Seq<char>, SessionStore)| s.0)[i] == k);
        }
        assert(sessions.map_values(|s: (Seq<char>, SessionStore)| s.0)[sessions.len() - 1]
            == sessions.last().0);
    }
}

/// Law (reconciliation completeness): whatever two consecutive polls
/// enumerate, after the second poll the registry holds exactly the players
/// the second poll observed — every player of the first poll that vanished
/// is detached, and every player of the second is attached.
pub proof fn lemma_reconciliation_completeness(
    m: Map<Seq<char>, SessionStore>,
    poll1: Seq<(Seq<char>, SessionStore)>,
    poll2: Seq<(Seq<char>, SessionStore)>,
)
    ensures
        registry_after_poll(registry_after_poll(m, poll1), poll2).dom() =~= poll_observed_ids(
            poll2,
        ),
        forall|k: Seq<char>|
            poll_observed_ids(poll1).contains(k) && !poll_observed_ids(poll2).contains(k)
                ==> !registry_after_poll(registry_after_poll(m, poll1), poll2).contains_key(k),
{
    broadcast use vstd::set::group_set_axioms;

    let m1 = registry_after_poll(m, poll1);
    lemma_attaches_domain(m, poll1);
    lemma_attaches_domain(m1, poll2);
    assert(m1.dom() =~= registry_after_attaches(m, poll1).dom().intersect(poll_observed_ids(
        poll1,
    )));
    assert(registry_after_poll(m1, poll2).dom() =~= registry_after_attaches(m1, poll2).dom()
        .intersect(poll_observed_ids(poll2)));
}

} // verus!
