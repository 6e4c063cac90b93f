//! The Agent Client Protocol session store: each session's conversation,
//! working directory, last use and notification channel, by session id.
//!
//! The store is a `DashMap`. Its methods take `&mut self`: a map that other
//! threads change between two calls allows no statement of what one call
//! finds, so callers that share the store hold it under a lock.
use vstd::prelude::*;

use dashmap::DashMap;
use tokio::sync::broadcast::{Receiver, Sender};

use crate::entities::conversation::new_uuid_v4;
use crate::entities::message::{duplicate_messages, same_messages, Message};
use crate::text::{hex32, hex_digits, string_from_chars};

verus! {

#[verifier::external_type_specification]
#[verifier::external_body]
#[verifier::reject_recursive_types(K)]
#[verifier::reject_recursive_types(V)]
#[verifier::reject_recursive_types(S)]
pub struct ExDashMap<K, V, S>(dashmap::DashMap<K, V, S>);

#[verifier::external_type_specification]
#[verifier::external_body]
#[verifier::reject_recursive_types(T)]
pub struct ExBroadcastSender<T>(tokio::sync::broadcast::Sender<T>);

#[verifier::external_type_specification]
#[verifier::external_body]
#[verifier::reject_recursive_types(T)]
pub struct ExBroadcastReceiver<T>(tokio::sync::broadcast::Receiver<T>);

/// How long a session may stay unused before eviction: 30 minutes, in
/// milliseconds.
pub const SESSION_TTL_MS: u64 = 1800000;

/// How many notifications a session's channel holds for slow subscribers.
pub const NOTIFY_CAPACITY: usize = 64;

/// One session. `last_access` is a reading of the caller's monotonic clock,
/// in milliseconds.
pub struct SessionEntry {
    pub history: Vec<Message>,
    pub last_access: u64,
    pub cwd: String,
    /// Pre-serialised JSON-RPC `session/update` notifications.
    pub notify_tx: Sender<String>,
}

/// No sessions at all.
pub open spec fn no_sessions() -> Map<Seq<char>, SessionEntry> {
    Map::empty()
}

/// The sessions a map holds, by id.
pub uninterp spec fn session_entries(m: DashMap<String, SessionEntry>) -> Map<Seq<char>, SessionEntry>;

/// `DashMap::new`: a map with no entries.
#[verifier::external_body]
fn empty_sessions() -> (r: DashMap<String, SessionEntry>)
    ensures
        session_entries(r) == no_sessions(),
{
    DashMap::new()
}

/// `DashMap::insert`: `entry` is stored under `key`, replacing what was
/// there; the other entries stay.
#[verifier::external_body]
fn put_session(map: &mut DashMap<String, SessionEntry>, key: String, entry: SessionEntry)
    ensures
        session_entries(*final(map)) == session_entries(*old(map)).insert(key@, entry),
{
    map.insert(key, entry);
}

/// `DashMap::remove`: the entry under `key` leaves the map and is handed
/// back; `None` when there is none.
#[verifier::external_body]
fn take_session(map: &mut DashMap<String, SessionEntry>, key: &str) -> (r: Option<SessionEntry>)
    ensures
        session_entries(*final(map)) == session_entries(*old(map)).remove(key@),
        match r {
            Some(e) => session_entries(*old(map)).contains_key(key@) && e == session_entries(*old(map))[key@],
            None => !session_entries(*old(map)).contains_key(key@),
        },
{
    map.remove(key).map(|(_, e)| e)
}

/// `DashMap::retain` with `is_fresh_entry` as the test: the entries used
/// less than the idle limit before `now` stay, the others leave.
#[verifier::external_body]
fn keep_fresh_sessions(map: &mut DashMap<String, SessionEntry>, now: u64)
    ensures
        session_entries(*final(map)) == session_entries(*old(map)).restrict(
            fresh_keys(session_entries(*old(map)), now),
        ),
{
    map.retain(|_, e| is_fresh_entry(e, now));
}

/// `tokio::sync::broadcast::channel`: the sending half of a new channel for
/// up to `capacity` queued messages (its receiver is dropped).
#[verifier::external_body]
fn notify_channel(capacity: usize) -> (r: Sender<String>)
    requires
        0 < capacity <= usize::MAX / 2,
{
    tokio::sync::broadcast::channel(capacity).0
}

/// `broadcast::Sender::subscribe`: a receiver of every message sent from
/// now on.
#[verifier::external_body]
fn subscribe_to(tx: &Sender<String>) -> (r: Receiver<String>) {
    tx.subscribe()
}

/// `broadcast::Sender::send`: the message goes to the current receivers; it
/// is dropped when there are none.
#[verifier::external_body]
fn send_to(tx: &Sender<String>, message: String) {
    let _ = tx.send(message);
}

/// A session used at `last_access` is still fresh at `now`: less than the
/// idle limit has passed (none, when the clock reads earlier).
pub open spec fn is_fresh(last_access: u64, now: u64) -> bool {
    now < last_access || now - last_access < SESSION_TTL_MS
}

/// The ids of the sessions in `m` that are fresh at `now`.
pub open spec fn fresh_keys(m: Map<Seq<char>, SessionEntry>, now: u64) -> Set<Seq<char>> {
    Set::new(|k: Seq<char>| m.contains_key(k) && is_fresh(m[k].last_access, now))
}

fn is_fresh_entry(e: &SessionEntry, now: u64) -> (r: bool)
    ensures
        r == is_fresh(e.last_access, now),
{
    now < e.last_access || now - e.last_access < SESSION_TTL_MS
}

/// The hyphenated form of 32 hexadecimal digits: 8-4-4-4-12.
pub open spec fn hyphenated(h: Seq<char>) -> Seq<char> {
    h.subrange(0, 8) + "-"@ + h.subrange(8, 12) + "-"@ + h.subrange(12, 16) + "-"@ + h.subrange(16, 20)
        + "-"@ + h.subrange(20, 32)
}

/// A session id: the hyphenated lowercase hexadecimal form of a UUID.
pub open spec fn is_session_id(id: Seq<char>) -> bool {
    exists|u: u128| id == hyphenated(#[trigger] hex_digits(u as nat, 32))
}

fn push_range(out: &mut Vec<char>, src: &Vec<char>, from: usize, to: usize)
    requires
        from <= to <= src.len(),
    ensures
        final(out)@ == old(out)@ + src@.subrange(from as int, to as int),
{
    let ghost start = out@;
    let mut i = from;
    while i < to
        invariant
            from <= i <= to <= src.len(),
            out@ == start + src@.subrange(from as int, i as int),
        decreases to - i,
    {
        out.push(src[i]);
        assert(src@.subrange(from as int, i + 1) =~= src@.subrange(from as int, i as int).push(src@[i as int]));
        i = i + 1;
    }
}

/// The hyphenated text of a UUID, as `Uuid`'s `Display` writes it.
pub fn uuid_text(id: u128) -> (r: String)
    ensures
        r@ == hyphenated(hex_digits(id as nat, 32)),
{
    let h = hex32(id);
    proof {
        crate::text::lemma_hex_digits_are_hex(id as nat, 32);
    }
    let mut out: Vec<char> = Vec::new();
    push_range(&mut out, &h, 0, 8);
    out.push('-');
    push_range(&mut out, &h, 8, 12);
    out.push('-');
    push_range(&mut out, &h, 12, 16);
    out.push('-');
    push_range(&mut out, &h, 16, 20);
    out.push('-');
    push_range(&mut out, &h, 20, 32);
    proof {
        reveal_strlit("-");
    }
    assert(out@ =~= hyphenated(h@));
    string_from_chars(out.as_slice())
}

/// A new session's entry: no history, used at `now`, working in `cwd`.
pub open spec fn is_new_entry(e: SessionEntry, cwd: Seq<char>, now: u64) -> bool {
    e.history@.len() == 0 && e.cwd@ == cwd && e.last_access == now
}

/// `e` is `before` used at `now`, with `added` appended to its history.
pub open spec fn is_used_entry(e: SessionEntry, before: SessionEntry, added: Seq<Message>, now: u64) -> bool {
    &&& e.history@ == before.history@ + added
    &&& e.last_access == now
    &&& e.cwd == before.cwd
    &&& e.notify_tx == before.notify_tx
}

/// `e` used at `now`, otherwise as it was.
pub open spec fn touched(e: SessionEntry, now: u64) -> SessionEntry {
    SessionEntry { history: e.history, last_access: now, cwd: e.cwd, notify_tx: e.notify_tx }
}

/// In-memory ACP session store.
pub struct AcpSessionStore {
    sessions: DashMap<String, SessionEntry>,
}

impl View for AcpSessionStore {
    type V = Map<Seq<char>, SessionEntry>;

    closed spec fn view(&self) -> Map<Seq<char>, SessionEntry> {
        session_entries(self.sessions)
    }
}

impl AcpSessionStore {
    pub fn new() -> (r: Self)
        ensures
            r@ == no_sessions(),
    {
        AcpSessionStore { sessions: empty_sessions() }
    }

    /// Creates a session working in `cwd`, used at `now`, and returns its
    /// fresh id; the other sessions stay.
    pub fn create_session(&mut self, cwd: String, now: u64) -> (r: String)
        ensures
            is_session_id(r@),
            exists|e: SessionEntry| is_new_entry(e, cwd@, now) && final(self)@ == old(self)@.insert(r@, e),
    {
        let id = uuid_text(new_uuid_v4());
        let entry = SessionEntry {
            history: Vec::new(),
            last_access: now,
            cwd,
            notify_tx: notify_channel(NOTIFY_CAPACITY),
        };
        let ghost e = entry;
        put_session(&mut self.sessions, id.clone(), entry);
        assert(is_new_entry(e, cwd@, now));
        id
    }

    /// A receiver of the session's notifications; `None` for an unknown
    /// session. The sessions stay as they were.
    pub fn subscribe(&mut self, session_id: &str) -> (r: Option<Receiver<String>>)
        ensures
            r is Some <==> old(self)@.contains_key(session_id@),
            final(self)@ == old(self)@,
    {
        match take_session(&mut self.sessions, session_id) {
            Some(entry) => {
                let rx = subscribe_to(&entry.notify_tx);
                put_session(&mut self.sessions, String::from_str(session_id), entry);
                assert(self@ =~= old(self)@);
                Some(rx)
            },
            None => {
                assert(self@ =~= old(self)@);
                None
            },
        }
    }

    /// Sends a notification to the session's subscribers, if the session
    /// exists. The sessions stay as they were.
    pub fn publish(&mut self, session_id: &str, notification: String)
        ensures
            final(self)@ == old(self)@,
    {
        match take_session(&mut self.sessions, session_id) {
            Some(entry) => {
                send_to(&entry.notify_tx, notification);
                put_session(&mut self.sessions, String::from_str(session_id), entry);
                assert(self@ =~= old(self)@);
            },
            None => {
                assert(self@ =~= old(self)@);
            },
        }
    }

    /// Appends `messages` to the session's history and marks it used at
    /// `now`; `false`, changing nothing, for an unknown session.
    pub fn push_messages(&mut self, session_id: &str, messages: Vec<Message>, now: u64) -> (r: bool)
        ensures
            r == old(self)@.contains_key(session_id@),
            r ==> exists|e: SessionEntry|
                is_used_entry(e, old(self)@[session_id@], messages@, now) && final(self)@ == old(self)@.insert(
                    session_id@,
                    e,
                ),
            !r ==> final(self)@ == old(self)@,
    {
        match take_session(&mut self.sessions, session_id) {
            Some(entry) => {
                let SessionEntry { history, last_access: _, cwd, notify_tx } = entry;
                let mut history = history;
                let mut added = messages;
                history.append(&mut added);
                let used = SessionEntry { history, last_access: now, cwd, notify_tx };
                let ghost e = used;
                put_session(&mut self.sessions, String::from_str(session_id), used);
                assert(self@ =~= old(self)@.insert(session_id@, e));
                assert(is_used_entry(e, old(self)@[session_id@], messages@, now));
                true
            },
            None => {
                assert(self@ =~= old(self)@);
                false
            },
        }
    }

    /// A copy of the session's history and its working directory, marking
    /// it used at `now`; `None`, changing nothing, for an unknown session.
    pub fn snapshot(&mut self, session_id: &str, now: u64) -> (r: Option<(Vec<Message>, String)>)
        ensures
            match r {
                Some((history, cwd)) => {
                    &&& old(self)@.contains_key(session_id@)
                    &&& same_messages(history@, old(self)@[session_id@].history@)
                    &&& cwd@ == old(self)@[session_id@].cwd@
                    &&& final(self)@ == old(self)@.insert(session_id@, touched(old(self)@[session_id@], now))
                },
                None => !old(self)@.contains_key(session_id@) && final(self)@ == old(self)@,
            },
    {
        match take_session(&mut self.sessions, session_id) {
            Some(entry) => {
                let history = duplicate_messages(&entry.history);
                let cwd = entry.cwd.clone();
                let SessionEntry { history: kept, last_access: _, cwd: kept_cwd, notify_tx } = entry;
                let used = SessionEntry { history: kept, last_access: now, cwd: kept_cwd, notify_tx };
                put_session(&mut self.sessions, String::from_str(session_id), used);
                assert(self@ =~= old(self)@.insert(session_id@, touched(old(self)@[session_id@], now)));
                Some((history, cwd))
            },
            None => {
                assert(self@ =~= old(self)@);
                None
            },
        }
    }

    /// Evicts the sessions unused for the idle limit or longer at `now`.
    pub fn evict_expired(&mut self, now: u64)
        ensures
            final(self)@ == old(self)@.restrict(fresh_keys(old(self)@, now)),
    {
        keep_fresh_sessions(&mut self.sessions, now);
    }

    /// Removes a session.
    pub fn remove_session(&mut self, session_id: &str)
        ensures
            final(self)@ == old(self)@.remove(session_id@),
    {
        let _ = take_session(&mut self.sessions, session_id);
    }
}

/// Eviction goes by idle time: of the sessions used no later than `now`,
/// one idle for less than the idle limit (30 minutes) stays, unchanged, and
/// one idle for the limit or longer leaves; no session is added. Staying is
/// monotone: a session that stays at a later time would stay at any
/// earlier one.
pub proof fn lemma_eviction_by_idle_time(
    before: Map<Seq<char>, SessionEntry>,
    after: Map<Seq<char>, SessionEntry>,
    now: u64,
)
    requires
        after == before.restrict(fresh_keys(before, now)),
    ensures
        SESSION_TTL_MS == 30 * 60 * 1000,
        forall|k: Seq<char>|
            #![trigger after.contains_key(k)]
            before.contains_key(k) && before[k].last_access <= now ==> (after.contains_key(k) <==> now
                - before[k].last_access < SESSION_TTL_MS),
        forall|k: Seq<char>| #[trigger] after.contains_key(k) ==> before.contains_key(k) && after[k] == before[k],
        forall|k: Seq<char>, earlier: u64|
            #![trigger after.contains_key(k), fresh_keys(before, earlier)]
            after.contains_key(k) && before[k].last_access <= earlier <= now ==> fresh_keys(
                before,
                earlier,
            ).contains(k),
{
}

/// Reading a session after messages were appended to it gives back its
/// earlier history followed by those messages; every other session is
/// untouched.
pub proof fn lemma_append_then_read(
    before: Map<Seq<char>, SessionEntry>,
    after: Map<Seq<char>, SessionEntry>,
    id: Seq<char>,
    added: Seq<Message>,
    now: u64,
)
    requires
        before.contains_key(id),
        exists|e: SessionEntry| is_used_entry(e, before[id], added, now) && after == before.insert(id, e),
    ensures
        after.contains_key(id),
        after[id].history@ == before[id].history@ + added,
        after[id].cwd == before[id].cwd,
        forall|k: Seq<char>|
            k != id ==> (after.contains_key(k) == before.contains_key(k)) && (before.contains_key(k) ==> after[k]
                == before[k]),
{
}

} // verus!
