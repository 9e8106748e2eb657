//! Live WebSocket connections of the game sessions: which client of which session is
//! connected, and which connections a message goes to.
//!
//! A connection is known here by a handle, a number that the caller gives each
//! socket; the caller keeps the socket's sender under that handle. The connections
//! are held in a `DashMap` keyed by session and client.
use vstd::prelude::*;
use dashmap::DashMap;

verus! {

/// Identifies a connected client within a session.
#[derive(Debug, Clone, Copy, PartialEq, Eq, Structural, Hash)]
pub enum ClientRole {
    Host,
    Player(u128),
}

#[verifier::external_type_specification]
#[verifier::external_body]
#[verifier::reject_recursive_types(K)]
#[verifier::reject_recursive_types(V)]
#[verifier::reject_recursive_types(S)]
pub struct ExDashMap<K, V, S>(DashMap<K, V, S>);

/// What a connection table holds: the handle stored under each connection key.
pub uninterp spec fn table_contents(m: DashMap<(u128, u8, u128), u64>) -> Map<(u128, u8, u128), u64>;

/// A table with no entries.
pub open spec fn empty_table() -> Map<(u128, u8, u128), u64> {
    Map::empty()
}

/// The value a map holds under `k`, if any.
pub open spec fn lookup(m: Map<(u128, u8, u128), u64>, k: (u128, u8, u128)) -> Option<u64> {
    if m.contains_key(k) {
        Some(m[k])
    } else {
        None
    }
}

/// `es` lists the entries of `m`: each entry of `m` exactly once, in some order.
pub open spec fn is_listing(es: Seq<((u128, u8, u128), u64)>, m: Map<(u128, u8, u128), u64>) -> bool {
    &&& forall|i: int| 0 <= i < es.len() ==> m.contains_key(#[trigger] es[i].0) && m[es[i].0] == es[i].1
    &&& forall|i: int, j: int| 0 <= i < j < es.len() ==> #[trigger] es[i].0 != #[trigger] es[j].0
    &&& forall|k: (u128, u8, u128)| #[trigger] m.contains_key(k) ==> exists|i: int| 0 <= i < es.len() && es[i].0 == k
}

/// Calls `DashMap::new`: a table with no entries.
#[verifier::external_body]
fn table_new() -> (m: DashMap<(u128, u8, u128), u64>)
    ensures
        table_contents(m) == empty_table(),
{
    DashMap::new()
}

/// Calls `DashMap::insert`: stores `v` under `k`, replacing what was there, and gives
/// back the value it replaced.
#[verifier::external_body]
fn table_insert(m: &mut DashMap<(u128, u8, u128), u64>, k: (u128, u8, u128), v: u64) -> (r: Option<u64>)
    ensures
        table_contents(*final(m)) == table_contents(*old(m)).insert(k, v),
        r == lookup(table_contents(*old(m)), k),
{
    m.insert(k, v)
}

/// Calls `DashMap::remove`: drops the entry of `k` and gives back its value.
#[verifier::external_body]
fn table_remove(m: &mut DashMap<(u128, u8, u128), u64>, k: (u128, u8, u128)) -> (r: Option<u64>)
    ensures
        table_contents(*final(m)) == table_contents(*old(m)).remove(k),
        r == lookup(table_contents(*old(m)), k),
{
    m.remove(&k).map(|(_, v)| v)
}

/// Calls `DashMap::get`: the value stored under `k`, copied out of the guard.
#[verifier::external_body]
fn table_get(m: &DashMap<(u128, u8, u128), u64>, k: (u128, u8, u128)) -> (r: Option<u64>)
    ensures
        r == lookup(table_contents(*m), k),
{
    m.get(&k).map(|e| *e.value())
}

/// Calls `DashMap::iter`, copying each entry out of its guard: every entry once, in an
/// order the map does not specify.
#[verifier::external_body]
fn table_entries(m: &DashMap<(u128, u8, u128), u64>) -> (r: Vec<((u128, u8, u128), u64)>)
    ensures
        is_listing(r@, table_contents(*m)),
{
    m.iter().map(|e| (*e.key(), *e.value())).collect()
}

/// The table key of a client of a session: the session, then `0` and `0` for the host,
/// `1` and the player's id for a player.
pub open spec fn role_key(session: u128, role: ClientRole) -> (u128, u8, u128) {
    match role {
        ClientRole::Host => (session, 0u8, 0u128),
        ClientRole::Player(p) => (session, 1u8, p),
    }
}

/// Keys that some client's key is: a host key or a player key.
pub open spec fn well_formed_keys(m: Map<(u128, u8, u128), u64>) -> bool {
    forall|k: (u128, u8, u128)| #[trigger] m.contains_key(k) ==> (k.1 == 0 && k.2 == 0) || k.1 == 1
}

/// Whether `role` is connected to `session`.
pub open spec fn connected(m: Map<(u128, u8, u128), u64>, session: u128, role: ClientRole) -> bool {
    m.contains_key(role_key(session, role))
}

/// The handle of the connection of `role` in `session`, if it is connected.
pub open spec fn handle_of(m: Map<(u128, u8, u128), u64>, session: u128, role: ClientRole) -> Option<u64> {
    lookup(m, role_key(session, role))
}

/// The handles of the listed entries of `session`, in the listing's order; only its
/// players' when `players_only`.
pub open spec fn recipients(es: Seq<((u128, u8, u128), u64)>, session: u128, players_only: bool) -> Seq<u64>
    decreases es.len(),
{
    if es.len() == 0 {
        seq![]
    } else {
        let e = es.last();
        let rest = recipients(es.drop_last(), session, players_only);
        if e.0.0 == session && (!players_only || e.0.1 == 1) {
            rest.push(e.1)
        } else {
            rest
        }
    }
}

/// The keys of `session`'s connections.
pub open spec fn session_keys(session: u128) -> Set<(u128, u8, u128)> {
    Set::new(|k: (u128, u8, u128)| k.0 == session)
}

/// Tracks the active WebSocket connections of all sessions.
pub struct SessionManager {
    connections: DashMap<(u128, u8, u128), u64>,
}

impl View for SessionManager {
    type V = Map<(u128, u8, u128), u64>;

    closed spec fn view(&self) -> Map<(u128, u8, u128), u64> {
        table_contents(self.connections)
    }
}

/// The table key of a client, computed.
fn key_of(session: u128, role: ClientRole) -> (k: (u128, u8, u128))
    ensures
        k == role_key(session, role),
{
    match role {
        ClientRole::Host => (session, 0, 0),
        ClientRole::Player(p) => (session, 1, p),
    }
}

/// The handles of the entries of `session` (only its players' when `players_only`).
fn collect_recipients(es: &Vec<((u128, u8, u128), u64)>, session: u128, players_only: bool) -> (r: Vec<u64>)
    ensures
        r@ == recipients(es@, session, players_only),
{
    let mut r: Vec<u64> = Vec::new();
    let mut i: usize = 0;
    while i < es.len()
        invariant
            i <= es@.len(),
            r@ == recipients(es@.take(i as int), session, players_only),
        decreases es@.len() - i,
    {
        assert(es@.take(i + 1).drop_last() =~= es@.take(i as int));
        let e = es[i];
        if e.0.0 == session && (!players_only || e.0.1 == 1) {
            r.push(e.1);
        }
        i = i + 1;
    }
    assert(es@.take(es@.len() as int) =~= es@);
    r
}

impl SessionManager {
    /// Create a new empty session manager.
    pub fn new() -> (r: Self)
        ensures
            r@ == empty_table(),
    {
        SessionManager { connections: table_new() }
    }

    /// Register a client connection for a session. A connection that the client had is
    /// replaced; its handle is returned.
    pub fn register(&mut self, session_id: u128, role: ClientRole, handle: u64) -> (r: Option<u64>)
        ensures
            final(self)@ == old(self)@.insert(role_key(session_id, role), handle),
            r == handle_of(old(self)@, session_id, role),
    {
        let k = key_of(session_id, role);
        table_insert(&mut self.connections, k, handle)
    }

    /// Unregister a client connection from a session; gives the handle it had.
    pub fn unregister(&mut self, session_id: u128, role: &ClientRole) -> (r: Option<u64>)
        ensures
            final(self)@ == old(self)@.remove(role_key(session_id, *role)),
            r == handle_of(old(self)@, session_id, *role),
    {
        let k = key_of(session_id, *role);
        table_remove(&mut self.connections, k)
    }

    /// The handle of the host's connection to a session, if the host is connected.
    pub fn send_to_host(&self, session_id: u128) -> (r: Option<u64>)
        ensures
            r == handle_of(self@, session_id, ClientRole::Host),
    {
        table_get(&self.connections, key_of(session_id, ClientRole::Host))
    }

    /// The handle of a player's connection to a session, if the player is connected.
    pub fn send_to_player(&self, session_id: u128, player_id: u128) -> (r: Option<u64>)
        ensures
            r == handle_of(self@, session_id, ClientRole::Player(player_id)),
    {
        table_get(&self.connections, key_of(session_id, ClientRole::Player(player_id)))
    }

    /// The handles of all connected clients of a session: where a broadcast goes, each
    /// connection once.
    pub fn broadcast(&self, session_id: u128) -> (r: Vec<u64>)
        ensures
            exists|es: Seq<((u128, u8, u128), u64)>| is_listing(es, self@) && r@ == recipients(es, session_id, false),
    {
        let es = table_entries(&self.connections);
        collect_recipients(&es, session_id, false)
    }

    /// The handles of a session's connected players, without the host.
    pub fn broadcast_to_players(&self, session_id: u128) -> (r: Vec<u64>)
        ensures
            exists|es: Seq<((u128, u8, u128), u64)>| is_listing(es, self@) && r@ == recipients(es, session_id, true),
    {
        let es = table_entries(&self.connections);
        collect_recipients(&es, session_id, true)
    }

    /// Remove all connections of a session (used when ending a session); gives their
    /// handles.
    pub fn remove_session(&mut self, session_id: u128) -> (r: Vec<u64>)
        ensures
            final(self)@ == old(self)@.remove_keys(session_keys(session_id)),
            exists|es: Seq<((u128, u8, u128), u64)>| is_listing(es, old(self)@) && r@ == recipients(es, session_id, false),
    {
        let ghost m0 = self@;
        let es = table_entries(&self.connections);
        let removed = collect_recipients(&es, session_id, false);
        let mut i: usize = 0;
        while i < es.len()
            invariant
                is_listing(es@, m0),
                i <= es@.len(),
                forall|k: (u128, u8, u128)| #[trigger] self@.contains_key(k) <==> (m0.contains_key(k) && !(k.0
                    == session_id && exists|j: int| 0 <= j < i && es@[j].0 == k)),
                forall|k: (u128, u8, u128)| #[trigger] self@.contains_key(k) ==> self@[k] == m0[k],
            decreases es@.len() - i,
        {
            let e = es[i];
            if e.0.0 == session_id {
                let ghost before = self@;
                table_remove(&mut self.connections, e.0);
                assert forall|k: (u128, u8, u128)| #[trigger] self@.contains_key(k) <==> (m0.contains_key(k)
                    && !(k.0 == session_id && exists|j: int| 0 <= j < i + 1 && es@[j].0 == k)) by {
                    if k == e.0 {
                        assert(es@[i as int].0 == k);
                    } else if m0.contains_key(k) && k.0 == session_id && exists|j: int| 0 <= j < i + 1 && es@[j].0 == k {
                        let j = choose|j: int| 0 <= j < i + 1 && es@[j].0 == k;
                        assert(j != i);
                    }
                }
            } else {
                assert forall|k: (u128, u8, u128)| #[trigger] self@.contains_key(k) <==> (m0.contains_key(k)
                    && !(k.0 == session_id && exists|j: int| 0 <= j < i + 1 && es@[j].0 == k)) by {
                    if m0.contains_key(k) && k.0 == session_id && exists|j: int| 0 <= j < i + 1 && es@[j].0 == k {
                        let j = choose|j: int| 0 <= j < i + 1 && es@[j].0 == k;
                        assert(j != i);
                    }
                }
            }
            i = i + 1;
        }
        proof {
            let target = m0.remove_keys(session_keys(session_id));
            assert forall|k: (u128, u8, u128)| #[trigger] self@.contains_key(k) <==> target.contains_key(k) by {
                if m0.contains_key(k) && k.0 == session_id {
                    let j = choose|j: int| 0 <= j < es@.len() && es@[j].0 == k;
                }
            }
            assert(self@ =~= target);
        }
        removed
    }

    /// Check if a specific client is connected.
    pub fn is_connected(&self, session_id: u128, role: &ClientRole) -> (r: bool)
        ensures
            r == connected(self@, session_id, *role),
    {
        table_get(&self.connections, key_of(session_id, *role)).is_some()
    }

    /// Check if any players are connected to a session.
    pub fn has_connected_players(&self, session_id: u128) -> (r: bool)
        ensures
            r == exists|p: u128| connected(self@, session_id, ClientRole::Player(p)),
    {
        let es = table_entries(&self.connections);
        let mut i: usize = 0;
        while i < es.len()
            invariant
                is_listing(es@, self@),
                i <= es@.len(),
                forall|j: int| 0 <= j < i ==> !(#[trigger] es@[j].0.0 == session_id && es@[j].0.1 == 1),
            decreases es@.len() - i,
        {
            let e = es[i];
            if e.0.0 == session_id && e.0.1 == 1 {
                assert(self@.contains_key(es@[i as int].0));
                assert(role_key(session_id, ClientRole::Player(e.0.2)) == e.0);
                assert(connected(self@, session_id, ClientRole::Player(e.0.2)));
                return true;
            }
            i = i + 1;
        }
        proof {
            assert forall|p: u128| !connected(self@, session_id, ClientRole::Player(p)) by {
                let k = role_key(session_id, ClientRole::Player(p));
                if self@.contains_key(k) {
                    let j = choose|j: int| 0 <= j < es@.len() && es@[j].0 == k;
                    assert(es@[j].0.0 == session_id && es@[j].0.1 == 1);
                }
            }
        }
        false
    }
}

/// Every key of the table is a client's key: no entries hold that, registering a
/// client keeps it, and so do unregistering a client and removing a session.
pub proof fn lemma_keys_are_client_keys(
    m: Map<(u128, u8, u128), u64>,
    session: u128,
    role: ClientRole,
    handle: u64,
)
    requires
        well_formed_keys(m),
    ensures
        well_formed_keys(empty_table()),
        well_formed_keys(m.insert(role_key(session, role), handle)),
        well_formed_keys(m.remove(role_key(session, role))),
        well_formed_keys(m.remove_keys(session_keys(session))),
{
}

/// Distinct clients of sessions have distinct keys.
pub proof fn lemma_role_key_injective(s1: u128, r1: ClientRole, s2: u128, r2: ClientRole)
    ensures
        role_key(s1, r1) == role_key(s2, r2) ==> s1 == s2 && r1 == r2,
{
}

/// After a client registers under a handle, it is connected under that handle, and every
/// other client of every session keeps the connection it had.
pub proof fn lemma_register_connects(
    m: Map<(u128, u8, u128), u64>,
    session: u128,
    role: ClientRole,
    handle: u64,
    other_session: u128,
    other_role: ClientRole,
)
    ensures
        handle_of(m.insert(role_key(session, role), handle), session, role) == Some(handle),
        !(other_session == session && other_role == role) ==> handle_of(
            m.insert(role_key(session, role), handle),
            other_session,
            other_role,
        ) == handle_of(m, other_session, other_role),
{
    lemma_role_key_injective(session, role, other_session, other_role);
}

/// After a client unregisters it is no longer connected, and every other client of every
/// session keeps the connection it had.
pub proof fn lemma_unregister_disconnects(
    m: Map<(u128, u8, u128), u64>,
    session: u128,
    role: ClientRole,
    other_session: u128,
    other_role: ClientRole,
)
    ensures
        !connected(m.remove(role_key(session, role)), session, role),
        !(other_session == session && other_role == role) ==> handle_of(
            m.remove(role_key(session, role)),
            other_session,
            other_role,
        ) == handle_of(m, other_session, other_role),
{
    lemma_role_key_injective(session, role, other_session, other_role);
}

/// Registering a client that was not connected and then unregistering it gives back the
/// connections as they were.
pub proof fn lemma_register_unregister_roundtrip(
    m: Map<(u128, u8, u128), u64>,
    session: u128,
    role: ClientRole,
    handle: u64,
)
    requires
        !connected(m, session, role),
    ensures
        m.insert(role_key(session, role), handle).remove(role_key(session, role)) == m,
{
    assert(m.insert(role_key(session, role), handle).remove(role_key(session, role)) =~= m);
}

/// After a session is removed none of its clients is connected, while the other
/// sessions keep their connections.
pub proof fn lemma_remove_session_clears(
    m: Map<(u128, u8, u128), u64>,
    session: u128,
    role: ClientRole,
    other_session: u128,
    other_role: ClientRole,
)
    ensures
        !connected(m.remove_keys(session_keys(session)), session, role),
        other_session != session ==> handle_of(m.remove_keys(session_keys(session)), other_session, other_role)
            == handle_of(m, other_session, other_role),
{
    assert(session_keys(session).contains(role_key(session, role)));
    assert(!session_keys(session).contains(role_key(other_session, other_role)) || other_session == session);
}

/// A message to a session reaches exactly the handles of its connected clients (of its
/// players, for `players_only`), and each connection once.
pub proof fn lemma_recipients_exact(
    es: Seq<((u128, u8, u128), u64)>,
    m: Map<(u128, u8, u128), u64>,
    session: u128,
    players_only: bool,
    h: u64,
)
    requires
        is_listing(es, m),
    ensures
        recipients(es, session, players_only).contains(h) <==> exists|k: (u128, u8, u128)|
            #[trigger] m.contains_key(k) && k.0 == session && (!players_only || k.1 == 1) && m[k] == h,
        recipients(es, session, players_only).len() == es.filter(
            |e: ((u128, u8, u128), u64)| e.0.0 == session && (!players_only || e.0.1 == 1),
        ).len(),
{
    lemma_recipients_members(es, session, players_only, h);
    lemma_recipients_len(es, session, players_only);
    if recipients(es, session, players_only).contains(h) {
        let i = choose|i: int|
            0 <= i < es.len() && es[i].0.0 == session && (!players_only || es[i].0.1 == 1) && es[i].1 == h;
        assert(m.contains_key(es[i].0));
    }
    if exists|k: (u128, u8, u128)| #[trigger] m.contains_key(k) && k.0 == session && (!players_only || k.1 == 1) && m[k] == h {
        let k = choose|k: (u128, u8, u128)| #[trigger] m.contains_key(k) && k.0 == session && (!players_only || k.1 == 1) && m[k] == h;
        let i = choose|i: int| 0 <= i < es.len() && es[i].0 == k;
        assert(es[i].0.0 == session && (!players_only || es[i].0.1 == 1) && es[i].1 == h);
    }
}

/// A handle is among the recipients of a listing exactly when an entry of the session
/// carries it.
proof fn lemma_recipients_members(es: Seq<((u128, u8, u128), u64)>, session: u128, players_only: bool, h: u64)
    ensures
        recipients(es, session, players_only).contains(h) <==> exists|i: int|
            0 <= i < es.len() && es[i].0.0 == session && (!players_only || es[i].0.1 == 1) && es[i].1 == h,
    decreases es.len(),
{
    if es.len() > 0 {
        let rest = es.drop_last();
        lemma_recipients_members(rest, session, players_only, h);
        let r = recipients(rest, session, players_only);
        let e = es.last();
        if exists|i: int| 0 <= i < es.len() && es[i].0.0 == session && (!players_only || es[i].0.1 == 1) && es[i].1 == h {
            let i = choose|i: int|
                0 <= i < es.len() && es[i].0.0 == session && (!players_only || es[i].0.1 == 1) && es[i].1 == h;
            if i < es.len() - 1 {
                assert(rest[i] == es[i]);
                if e.0.0 == session && (!players_only || e.0.1 == 1) {
                    assert(r.push(e.1).contains(h)) by {
                        let j = choose|j: int| 0 <= j < r.len() && r[j] == h;
                        assert(r.push(e.1)[j] == h);
                    }
                }
            } else {
                assert(r.push(e.1)[r.len() as int] == h);
            }
        }
        if recipients(es, session, players_only).contains(h) {
            if e.0.0 == session && (!players_only || e.0.1 == 1) && e.1 == h {
                assert(es[es.len() - 1] == e);
            } else if e.0.0 == session && (!players_only || e.0.1 == 1) {
                let j = choose|j: int| 0 <= j < r.push(e.1).len() && r.push(e.1)[j] == h;
                assert(j < r.len());
                assert(r[j] == h);
                let i = choose|i: int|
                    0 <= i < rest.len() && rest[i].0.0 == session && (!players_only || rest[i].0.1 == 1) && rest[i].1 == h;
                assert(es[i] == rest[i]);
            } else {
                let i = choose|i: int|
                    0 <= i < rest.len() && rest[i].0.0 == session && (!players_only || rest[i].0.1 == 1) && rest[i].1 == h;
                assert(es[i] == rest[i]);
            }
        }
    }
}

/// One recipient per entry of the session.
proof fn lemma_recipients_len(es: Seq<((u128, u8, u128), u64)>, session: u128, players_only: bool)
    ensures
        recipients(es, session, players_only).len() == es.filter(
            |e: ((u128, u8, u128), u64)| e.0.0 == session && (!players_only || e.0.1 == 1),
        ).len(),
    decreases es.len(),
{
    let pred = |e: ((u128, u8, u128), u64)| e.0.0 == session && (!players_only || e.0.1 == 1);
    if es.len() > 0 {
        lemma_recipients_len(es.drop_last(), session, players_only);
        assert(es.drop_last().push(es.last()) =~= es);
        es.drop_last().lemma_filter_push(es.last(), pred);
    } else {
        reveal(Seq::filter);
    }
}

}
