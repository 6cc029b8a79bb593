//! A per-client fixed-window limiter for the install endpoints.
//!
//! These are the only unauthenticated writes in the service, and since
//! listings are ordered by install count they decide who sits at the top of
//! the library. Without a limit anyone can invent unlimited `installation_id`s
//! and rank their own workflow first, which costs nothing and needs no
//! publisher token.
//!
//! Fixed window rather than a token bucket: a burst at a window boundary can
//! reach twice the limit, which is a real weakness and an acceptable one here.
//! The aim is to make sustained inflation expensive, not to police an exact
//! rate.
//!
//! In-memory, so it is per-replica and resets on restart: this bounds casual
//! abuse, not a distributed adversary.
use crate::deps::{clock_now, nanos_since};
use crate::headers::{header, text_under};
use crate::text::{
    first_piece, is_blank, split_on, the_first_piece_precedes_the_separator, trim, trimmed,
    trimming_empties_only_blanks,
};
use axum::http::{HeaderMap, HeaderValue};
use std::time::Instant;
use vstd::hash_map::StringHashMap;
use vstd::prelude::*;

verus! {

/// Entries are dropped once this many accumulate, oldest window first, so a
/// long-running process cannot be made to grow without bound by cycling source
/// addresses. Well above any plausible legitimate client count.
pub const MAX_TRACKED: usize = 20_000;

/// One client's window: when it started, in nanoseconds since the limiter was
/// made, and how many hits fell into it.
#[derive(Clone, Copy, Debug, PartialEq, Eq, Structural)]
pub struct Window {
    pub started: u128,
    pub hits: u32,
}

/// Counts the hits of each client in a window of its own.
pub struct RateLimiter {
    limit: u32,
    window: u128,
    epoch: Instant,
    seen: StringHashMap<Window>,
    keys: Vec<String>,
}

/// What a limiter remembers, and the clock reading it counts time from.
#[verifier::ext_equal]
pub struct LimiterState {
    pub limit: u32,
    pub window: u128,
    pub epoch: Instant,
    pub seen: Map<Seq<char>, Window>,
}

/// How long a window has been running. A clock that reads earlier than the
/// window's start counts as no time at all.
pub open spec fn age(w: Window, now: u128) -> nat {
    if now >= w.started {
        (now - w.started) as nat
    } else {
        0
    }
}

impl LimiterState {
    /// Whether a window is still running.
    pub open spec fn is_live(self, w: Window, now: u128) -> bool {
        age(w, now) < self.window
    }

    /// Whether a client has a window that is still running.
    pub open spec fn has_live(self, key: Seq<char>, now: u128) -> bool {
        self.seen.contains_key(key) && self.is_live(self.seen[key], now)
    }

    /// Whether the table holds as many clients as it may.
    pub open spec fn is_full(self) -> bool {
        self.seen.dom().len() >= MAX_TRACKED
    }

    /// Without the windows that have run out.
    pub open spec fn purged(self, now: u128) -> LimiterState {
        LimiterState {
            seen: Map::new(|k: Seq<char>| self.has_live(k, now), |k: Seq<char>| self.seen[k]),
            ..self
        }
    }

    /// Without the windows that have run out, if the table is full.
    pub open spec fn relieved(self, now: u128) -> LimiterState {
        if self.is_full() {
            self.purged(now)
        } else {
            self
        }
    }

    /// Whether no window started before this client's.
    pub open spec fn is_oldest(self, key: Seq<char>) -> bool {
        &&& self.seen.contains_key(key)
        &&& forall|k: Seq<char>| #[trigger]
            self.seen.contains_key(k) ==> self.seen[key].started <= self.seen[k].started
    }

    /// Without one client's window.
    pub open spec fn without(self, key: Seq<char>) -> LimiterState {
        LimiterState { seen: self.seen.remove(key), ..self }
    }

    /// The window of a client after one more hit: its running window with the
    /// hit counted, or else a new one. A count that can grow no further stays
    /// where it is.
    pub open spec fn hit_window(self, key: Seq<char>, now: u128) -> Window {
        if self.has_live(key, now) {
            let hits = self.seen[key].hits;
            Window {
                started: self.seen[key].started,
                hits: if hits < u32::MAX {
                    (hits + 1) as u32
                } else {
                    hits
                },
            }
        } else {
            Window { started: now, hits: 1 }
        }
    }

    /// With one more hit of a client counted.
    pub open spec fn hit(self, key: Seq<char>, now: u128) -> LimiterState {
        LimiterState { seen: self.seen.insert(key, self.hit_window(key, now)), ..self }
    }

    /// Whether a hit of a client finds room without dropping a window that is
    /// still running: the client has an entry already, or there is a free one
    /// once the windows that have run out are gone.
    pub open spec fn has_room(self, key: Seq<char>, now: u128) -> bool {
        self.relieved(now).seen.contains_key(key) || !self.relieved(now).is_full()
    }

    /// What may be remembered after a hit. A table that is full of running
    /// windows drops the oldest of them to take a new client in; of several
    /// that are equally old, any one.
    pub open spec fn leads_to(self, key: Seq<char>, now: u128, next: LimiterState) -> bool {
        let s = self.relieved(now);
        if self.has_room(key, now) {
            next == s.hit(key, now)
        } else {
            exists|oldest: Seq<char>| #[trigger]
                s.is_oldest(oldest) && next == s.without(oldest).hit(key, now)
        }
    }

    /// Whether a hit is let through: whether its client is within its limit,
    /// the hit included. Nothing else decides.
    pub open spec fn admits(self, key: Seq<char>, now: u128) -> bool {
        (if self.has_live(key, now) {
            self.seen[key].hits + 1
        } else {
            1
        }) <= self.limit
    }

    /// Whether the clock may read `now`, in nanoseconds since the limiter was
    /// made.
    pub closed spec fn may_read(self, now: u128) -> bool {
        call_ensures(nanos_since, (&self.epoch,), now)
    }

    /// A hit of `key`, at whatever time the clock read, led to `next` and was
    /// let through or not.
    pub open spec fn counts(self, key: Seq<char>, next: LimiterState, admitted: bool) -> bool {
        exists|now: u128| #[trigger]
            self.leads_to(key, now, next) && self.may_read(now) && admitted == self.admits(key, now)
    }

    /// No more clients than the table is meant to hold.
    pub open spec fn is_bounded(self) -> bool {
        self.seen.dom().finite() && self.seen.dom().len() <= MAX_TRACKED
    }
}

/// What the clock may read is what it returns when it is asked.
pub(crate) proof fn lemma_reading(s: LimiterState, now: u128)
    requires
        s.may_read(now),
    ensures
        call_ensures(nanos_since, (&s.epoch,), now),
{
}

impl View for RateLimiter {
    type V = LimiterState;

    closed spec fn view(&self) -> LimiterState {
        LimiterState {
            limit: self.limit,
            window: self.window,
            epoch: self.epoch,
            seen: self.seen@,
        }
    }
}

/// Whether the clock may read `epoch` when a limiter is made.
pub closed spec fn may_start_at(epoch: Instant) -> bool {
    call_ensures(clock_now, (), epoch)
}

/// The names in a list, as characters.
spec fn names(keys: Seq<String>) -> Seq<Seq<char>> {
    keys.map_values(|k: String| k@)
}

impl RateLimiter {
    /// The list of clients names each client of the table once, and the table
    /// is no larger than it is meant to be.
    pub closed spec fn wf(&self) -> bool {
        &&& lists_exactly(self.keys@, self.seen@)
        &&& self.seen@.dom().finite()
        &&& self.seen@.dom().len() <= MAX_TRACKED
    }

    /// A limiter that lets `limit` hits of a client through in each window.
    pub fn new(limit: u32, window: u128) -> (res: Self)
        ensures
            res.wf(),
            res@ == (LimiterState { limit, window, epoch: res@.epoch, seen: Map::empty() }),
            may_start_at(res@.epoch),
    {
        let res = RateLimiter {
            limit,
            window,
            epoch: clock_now(),
            seen: StringHashMap::new(),
            keys: Vec::new(),
        };
        assert(res.seen@.dom() =~= Set::<Seq<char>>::empty());
        res
    }

    /// Record a hit for `key` now. `false` means the caller is over its limit.
    pub fn check(&mut self, key: &str) -> (admitted: bool)
        requires
            old(self).wf(),
        ensures
            final(self).wf(),
            old(self)@.counts(key@, final(self)@, admitted),
    {
        let now = nanos_since(&self.epoch);
        self.check_at(key, now)
    }

    /// Record a hit for `key` at `now`, in nanoseconds since the limiter was
    /// made. `false` means the caller is over its limit.
    pub fn check_at(&mut self, key: &str, now: u128) -> (admitted: bool)
        requires
            old(self).wf(),
        ensures
            final(self).wf(),
            old(self)@.leads_to(key@, now, final(self)@),
            admitted == old(self)@.admits(key@, now),
    {
        let ghost before = self@;
        if self.seen.len() >= MAX_TRACKED {
            self.purge(now);
        }
        let ghost s = self@;
        assert(s == before.relieved(now));
        let (w, admitted, known) = match self.seen.get(key) {
            Some(w) => {
                if live(w, now, self.window) {
                    if w.hits < u32::MAX {
                        let hits: u32 = w.hits + 1;
                        (Window { started: w.started, hits }, hits <= self.limit, true)
                    } else {
                        (*w, false, true)
                    }
                } else {
                    (Window { started: now, hits: 1 }, 1 <= self.limit, true)
                }
            },
            None => (Window { started: now, hits: 1 }, 1 <= self.limit, false),
        };
        assert(w == s.hit_window(key@, now));
        if !known {
            // Still full of live windows: the oldest makes room.
            if self.seen.len() >= MAX_TRACKED {
                let dropped = self.drop_oldest();
                assert(s.is_oldest(dropped@));
                assert(self@ == s.without(dropped@));
            }
        }
        let ghost roomy = self@;
        proof {
            lemma_insert(self.keys@, self.seen@, key@, w);
        }
        if !known {
            let name = key.to_owned();
            proof {
                assert(names(self.keys@.push(name)) =~= names(self.keys@).push(key@));
            }
            self.keys.push(name);
        }
        self.seen.insert(key.to_owned(), w);
        assert(self@ == roomy.hit(key@, now));
        admitted
    }

    /// When the window of the client at `i` of the list started.
    fn started(&self, i: usize) -> (res: u128)
        requires
            self.wf(),
            i < self.keys@.len(),
        ensures
            self.seen@.contains_key(names(self.keys@)[i as int]),
            res == self.seen@[names(self.keys@)[i as int]].started,
    {
        assert(names(self.keys@).contains(names(self.keys@)[i as int]));
        match self.seen.get(self.keys[i].as_str()) {
            Some(w) => w.started,
            None => 0,
        }
    }

    /// Drop the oldest window, and say whose it was.
    fn drop_oldest(&mut self) -> (dropped: String)
        requires
            old(self).wf(),
            old(self)@.seen.dom().len() > 0,
        ensures
            final(self).wf(),
            old(self)@.is_oldest(dropped@),
            final(self)@ == old(self)@.without(dropped@),
    {
        let ghost keys0 = self.keys@;
        let ghost seen0 = self.seen@;
        proof {
            let some = seen0.dom().choose();
            assert(seen0.contains_key(some));
            assert(names(keys0).contains(some));
        }
        let mut at: usize = 0;
        let mut least: u128 = self.started(0);
        let mut i: usize = 1;
        while i < self.keys.len()
            invariant
                self.wf(),
                self.keys@ == keys0,
                self.seen@ == seen0,
                at < i <= keys0.len(),
                least == seen0[names(keys0)[at as int]].started,
                forall|j: int| 0 <= j < i ==> least <= seen0[#[trigger] names(keys0)[j]].started,
            decreases keys0.len() - i,
        {
            let started = self.started(i);
            if started < least {
                at = i;
                least = started;
            }
            i = i + 1;
        }
        proof {
            lemma_swap_remove(keys0, seen0, at as int);
            assert(names(keys0).contains(names(keys0)[at as int]));
            assert forall|k: Seq<char>| #[trigger] seen0.contains_key(k) implies least
                <= seen0[k].started by {
                assert(names(keys0).contains(k));
                let j = choose|j: int| 0 <= j < names(keys0).len() && names(keys0)[j] == k;
                assert(least <= seen0[names(keys0)[j]].started);
            }
        }
        let dropped = self.keys.swap_remove(at);
        assert(self.keys@ =~= swap_removed(keys0, at as int));
        self.seen.remove(dropped.as_str());
        dropped
    }

    /// Drop the windows that have run out.
    fn purge(&mut self, now: u128)
        requires
            old(self).wf(),
        ensures
            final(self).wf(),
            final(self)@ == old(self)@.purged(now),
    {
        let ghost s = self@;
        let mut i: usize = 0;
        while i < self.keys.len()
            invariant
                i <= self.keys@.len(),
                self.wf(),
                self.window == s.window,
                self.limit == s.limit,
                self.epoch == s.epoch,
                forall|k: Seq<char>| #[trigger]
                    self.seen@.contains_key(k) ==> s.seen.contains_key(k) && self.seen@[k]
                        == s.seen[k],
                forall|k: Seq<char>| #[trigger]
                    s.seen.contains_key(k) && !self.seen@.contains_key(k) ==> !s.is_live(
                        s.seen[k],
                        now,
                    ),
                forall|j: int| 0 <= j < i ==> s.has_live(#[trigger] names(self.keys@)[j], now),
            decreases self.keys@.len() - i,
        {
            let ghost keys0 = self.keys@;
            let ghost seen0 = self.seen@;
            let ghost name = names(keys0)[i as int];
            assert(names(keys0).contains(name));
            let expired = match self.seen.get(self.keys[i].as_str()) {
                Some(w) => !live(w, now, self.window),
                None => true,
            };
            if expired {
                proof {
                    lemma_swap_remove(keys0, seen0, i as int);
                }
                let removed = self.keys.swap_remove(i);
                self.seen.remove(removed.as_str());
                assert(self.keys@ =~= swap_removed(keys0, i as int));
                assert forall|j: int| 0 <= j < i implies s.has_live(
                    #[trigger] names(self.keys@)[j],
                    now,
                ) by {
                    assert(names(self.keys@)[j] == names(keys0)[j]);
                }
            } else {
                i = i + 1;
            }
        }
        proof {
            assert forall|k: Seq<char>| self.seen@.contains_key(k) implies s.has_live(k, now) by {
                assert(names(self.keys@).contains(k));
                let j = choose|j: int|
                    0 <= j < names(self.keys@).len() && names(self.keys@)[j] == k;
                assert(s.has_live(names(self.keys@)[j], now));
            }
            assert(self.seen@ =~= s.purged(now).seen);
        }
    }
}

fn live(w: &Window, now: u128, window: u128) -> (res: bool)
    ensures
        res == (age(*w, now) < window),
{
    let age: u128 = if now >= w.started {
        now - w.started
    } else {
        0
    };
    age < window
}

// --- who is calling ---------------------------------------------------------

/// The header in which the tunnel names the original client.
pub const CF_CONNECTING_IP: &'static str = "cf-connecting-ip";

/// The header in which each proxy names the client it serves.
pub const X_FORWARDED_FOR: &'static str = "x-forwarded-for";

/// The client behind a request: what the tunnel names, or else the first entry
/// of the chain of proxies, or else the address of the socket. A blank header
/// names nobody, and neither does an empty address.
pub open spec fn client_of(
    tunnel: Option<Seq<char>>,
    chain: Option<Seq<char>>,
    socket: Option<Seq<char>>,
) -> Seq<char> {
    if tunnel is Some && trimmed(tunnel->0).len() > 0 {
        trimmed(tunnel->0)
    } else if chain is Some && trimmed(split_on(chain->0, ',')[0]).len() > 0 {
        trimmed(split_on(chain->0, ',')[0])
    } else if socket is Some && socket->0.len() > 0 {
        socket->0
    } else {
        "unknown"@
    }
}

/// Identify the client from what each source says of it.
pub fn client_from(tunnel: Option<&str>, chain: Option<&str>, socket: Option<&str>) -> (key: String)
    ensures
        key@ == client_of(tunnel.deep_view(), chain.deep_view(), socket.deep_view()),
{
    if let Some(ip) = tunnel {
        let ip = trim(ip);
        if !ip.is_empty() {
            return ip.to_owned();
        }
    }
    if let Some(chain) = chain {
        let first = trim(first_piece(chain, ','));
        if !first.is_empty() {
            return first.to_owned();
        }
    }
    if let Some(ip) = socket {
        if !ip.is_empty() {
            return ip.to_owned();
        }
    }
    "unknown".to_owned()
}

/// Identify the client for rate-limiting purposes. `socket` is the address of
/// the connection, as text.
///
/// The only route in from outside is the Cloudflare Tunnel, and Cloudflare
/// overwrites `CF-Connecting-IP` on ingress rather than appending to it, so it
/// cannot be spoofed by an external caller. `X-Forwarded-For` is the fallback
/// for a request arriving through the gateway without it, and its *first*
/// entry is the original client.
///
/// A caller already inside the cluster can set either header to anything, and
/// that is fine: in-cluster access is trusted, and the harness in this cluster
/// reaches the service over cluster DNS rather than through the tunnel.
///
/// Nothing derived here is stored. The value lives in memory for the length of
/// one window and never reaches the database, which keeps the schema's
/// intention intact: `installation_id` identifies an installation, not a
/// person or a machine, and an address would undo that.
pub fn client_key(headers: &HeaderMap<HeaderValue>, socket: Option<&str>) -> (key: String)
    ensures
        key@ == client_of(
            text_under(*headers, CF_CONNECTING_IP@),
            text_under(*headers, X_FORWARDED_FOR@),
            socket.deep_view(),
        ),
{
    proof {
        reveal_strlit("cf-connecting-ip");
        reveal_strlit("x-forwarded-for");
    }
    client_from(header(headers, CF_CONNECTING_IP), header(headers, X_FORWARDED_FOR), socket)
}

/// Blank headers do not become the key: the caller that sends them is known by
/// its socket, as if it had sent none. Otherwise every caller sending a blank
/// header would share one window.
pub proof fn a_blank_header_names_nobody(
    tunnel: Seq<char>,
    chain: Seq<char>,
    socket: Option<Seq<char>>,
)
    requires
        is_blank(tunnel),
        is_blank(split_on(chain, ',')[0]),
    ensures
        client_of(Some(tunnel), Some(chain), socket) == client_of(None, None, socket),
        client_of(Some(tunnel), Some(chain), socket) == if socket is Some && socket->0.len() > 0 {
            socket->0
        } else {
            "unknown"@
        },
{
    trimming_empties_only_blanks(tunnel);
    trimming_empties_only_blanks(split_on(chain, ',')[0]);
}

/// What the tunnel says wins: an external caller cannot forge it, whatever
/// chain it sends.
pub proof fn the_tunnel_outranks_the_chain(
    tunnel: Seq<char>,
    chain: Option<Seq<char>>,
    socket: Option<Seq<char>>,
)
    requires
        !is_blank(tunnel),
    ensures
        client_of(Some(tunnel), chain, socket) == trimmed(tunnel),
{
    trimming_empties_only_blanks(tunnel);
}

/// The first entry of the chain is the original client; later ones are proxies
/// and make no difference.
pub proof fn the_chain_starts_with_the_client(
    first: Seq<char>,
    proxies: Seq<char>,
    socket: Option<Seq<char>>,
)
    requires
        !first.contains(','),
        !is_blank(first),
    ensures
        client_of(None, Some(first), socket) == trimmed(first),
        client_of(None, Some(first.push(',') + proxies), socket) == trimmed(first),
{
    trimming_empties_only_blanks(first);
    the_first_piece_precedes_the_separator(first, proxies, ',');
}

/// No client goes without a name, so none shares a window by having none.
pub proof fn every_client_has_a_name(
    tunnel: Option<Seq<char>>,
    chain: Option<Seq<char>>,
    socket: Option<Seq<char>>,
)
    ensures
        client_of(tunnel, chain, socket).len() > 0,
{
    reveal_strlit("unknown");
}

// --- the list of clients ----------------------------------------------------

spec fn lists_exactly(keys: Seq<String>, seen: Map<Seq<char>, Window>) -> bool {
    &&& names(keys).no_duplicates()
    &&& forall|k: Seq<char>| #[trigger] names(keys).contains(k) <==> seen.contains_key(k)
}

spec fn swap_removed(keys: Seq<String>, i: int) -> Seq<String> {
    keys.update(i, keys.last()).drop_last()
}

proof fn lemma_insert(keys: Seq<String>, seen: Map<Seq<char>, Window>, key: Seq<char>, w: Window)
    requires
        lists_exactly(keys, seen),
    ensures
        seen.contains_key(key) ==> lists_exactly(keys, seen.insert(key, w)),
        seen.contains_key(key) ==> seen.insert(key, w).dom() == seen.dom(),
        !seen.contains_key(key) ==> forall|name: String|
            name@ == key ==> lists_exactly(#[trigger] keys.push(name), seen.insert(key, w)),
{
    if seen.contains_key(key) {
        assert(seen.insert(key, w).dom() =~= seen.dom());
    } else {
        assert(!names(keys).contains(key));
        assert forall|name: String| name@ == key implies lists_exactly(
            #[trigger] keys.push(name),
            seen.insert(key, w),
        ) by {
            let grown = names(keys.push(name));
            assert(grown =~= names(keys).push(key));
            assert forall|k: Seq<char>| #[trigger] grown.contains(k) <==> seen.insert(key, w).contains_key(k) by {
                if k == key {
                    assert(grown[grown.len() - 1] == key);
                } else if seen.contains_key(k) {
                    assert(names(keys).contains(k));
                    let j = choose|j: int| 0 <= j < names(keys).len() && names(keys)[j] == k;
                    assert(grown[j] == k);
                } else {
                    assert(!names(keys).contains(k));
                }
            }
        }
    }
}

proof fn lemma_swap_remove(keys: Seq<String>, seen: Map<Seq<char>, Window>, i: int)
    requires
        lists_exactly(keys, seen),
        0 <= i < keys.len(),
    ensures
        lists_exactly(swap_removed(keys, i), seen.remove(keys[i]@)),
        forall|j: int| 0 <= j < i ==> #[trigger] names(swap_removed(keys, i))[j] == names(keys)[j],
{
    let kept = names(swap_removed(keys, i));
    let all = names(keys);
    let gone = keys[i]@;
    assert(all[i] == gone);
    assert forall|a: int, b: int| 0 <= a < kept.len() && 0 <= b < kept.len() && a != b implies kept[a]
        != kept[b] by {
        let last = all.len() - 1;
        let x = if a == i { last } else { a };
        let y = if b == i { last } else { b };
        assert(kept[a] == all[x] && kept[b] == all[y]);
    }
    assert forall|k: Seq<char>| #[trigger] kept.contains(k) <==> seen.remove(gone).contains_key(k) by {
        if kept.contains(k) {
            let j = choose|j: int| 0 <= j < kept.len() && kept[j] == k;
            if j == i {
                assert(all[all.len() - 1] == k);
            } else {
                assert(all[j] == k);
            }
            assert(all.contains(k));
        }
        if seen.contains_key(k) && k != gone {
            assert(all.contains(k));
            let j = choose|j: int| 0 <= j < all.len() && all[j] == k;
            if j == all.len() - 1 {
                assert(kept[i] == k);
            } else {
                assert(kept[j] == k);
            }
        }
    }
}

// --- laws -------------------------------------------------------------------

/// A series of hits, each a client and a time, and the states of the limiter
/// before, between and after them.
pub open spec fn is_run(states: Seq<LimiterState>, hits: Seq<(Seq<char>, u128)>) -> bool {
    &&& states.len() == hits.len() + 1
    &&& forall|i: int|
        0 <= i < hits.len() ==> states[i].leads_to(
            (#[trigger] hits[i]).0,
            hits[i].1,
            states[i + 1],
        )
}

/// How many of the first `n` hits are hits of one client.
pub open spec fn hits_of(hits: Seq<(Seq<char>, u128)>, key: Seq<char>, n: nat) -> nat
    decreases n,
{
    if n == 0 {
        0
    } else {
        let before = hits_of(hits, key, (n - 1) as nat);
        if hits[n - 1].0 == key {
            before + 1
        } else {
            before
        }
    }
}

/// How many of the first `n` hits are hits of one client that were let
/// through.
pub open spec fn admitted_of(
    states: Seq<LimiterState>,
    hits: Seq<(Seq<char>, u128)>,
    key: Seq<char>,
    n: nat,
) -> nat
    decreases n,
{
    if n == 0 {
        0
    } else {
        let before = admitted_of(states, hits, key, (n - 1) as nat);
        if hits[n - 1].0 == key && states[n - 1].admits(key, hits[n - 1].1) {
            before + 1
        } else {
            before
        }
    }
}

proof fn lemma_purged_is_smaller(s: LimiterState, now: u128)
    requires
        s.seen.dom().finite(),
    ensures
        s.purged(now).seen.dom().finite(),
        s.purged(now).seen.dom().len() <= s.seen.dom().len(),
{
    let kept = s.purged(now).seen.dom();
    assert(kept.subset_of(s.seen.dom()));
    vstd::set_lib::lemma_len_subset(kept, s.seen.dom());
}

/// What a hit does to the client it is of: its window takes the hit in.
proof fn lemma_own_hit(s: LimiterState, key: Seq<char>, now: u128, next: LimiterState)
    requires
        s.leads_to(key, now, next),
    ensures
        next.limit == s.limit,
        next.window == s.window,
        next.epoch == s.epoch,
        next.seen.contains_key(key),
        next.seen[key] == s.hit_window(key, now),
{
}

/// What a hit does to another client: its window stays as it is, or is gone.
proof fn lemma_other_hit(
    s: LimiterState,
    key: Seq<char>,
    now: u128,
    next: LimiterState,
    other: Seq<char>,
)
    requires
        s.leads_to(key, now, next),
        other != key,
    ensures
        next.seen.contains_key(other) ==> s.seen.contains_key(other) && next.seen[other]
            == s.seen[other],
        s.has_room(key, now) && s.has_live(other, now) ==> next.seen.contains_key(other),
{
}

/// The table of a limiter is within its bound.
pub proof fn a_limiter_is_bounded(limiter: RateLimiter)
    requires
        limiter.wf(),
    ensures
        limiter@.is_bounded(),
{
}

/// The table never outgrows its bound, whatever hits arrive.
pub proof fn the_table_stays_bounded(
    s: LimiterState,
    key: Seq<char>,
    now: u128,
    next: LimiterState,
)
    requires
        s.is_bounded(),
        s.leads_to(key, now, next),
    ensures
        next.is_bounded(),
{
    lemma_purged_is_smaller(s, now);
    if s.relieved(now).seen.contains_key(key) {
        assert(next.seen.dom() =~= s.relieved(now).seen.dom());
    }
}

/// The bound holds throughout any series of hits.
pub proof fn the_table_is_always_bounded(
    states: Seq<LimiterState>,
    hits: Seq<(Seq<char>, u128)>,
    n: nat,
)
    requires
        is_run(states, hits),
        states[0].is_bounded(),
        n <= hits.len(),
    ensures
        states[n as int].is_bounded(),
    decreases n,
{
    if n > 0 {
        the_table_is_always_bounded(states, hits, (n - 1) as nat);
        let (key, now) = hits[n - 1];
        the_table_stays_bounded(states[n - 1], key, now, states[n as int]);
    }
}

/// Windows are dropped oldest first: one that a hit drops started no later
/// than any that it keeps.
pub proof fn the_oldest_windows_go_first(
    s: LimiterState,
    key: Seq<char>,
    now: u128,
    next: LimiterState,
    dropped: Seq<char>,
    kept: Seq<char>,
)
    requires
        s.leads_to(key, now, next),
        s.seen.contains_key(dropped),
        !next.seen.contains_key(dropped),
        kept != key,
        next.seen.contains_key(kept),
    ensures
        s.seen.contains_key(kept),
        s.seen[dropped].started <= s.seen[kept].started,
{
    assert(s.relieved(now).seen.contains_key(kept));
}

/// A window that is still running is dropped only from a table full of running
/// windows, only for a client that has no running window itself, and then it is
/// the only one.
pub proof fn a_running_window_goes_only_to_make_room(
    s: LimiterState,
    key: Seq<char>,
    now: u128,
    next: LimiterState,
    dropped: Seq<char>,
    other: Seq<char>,
)
    requires
        s.leads_to(key, now, next),
        s.has_live(dropped, now),
        !next.seen.contains_key(dropped),
    ensures
        s.purged(now).is_full(),
        !s.has_live(key, now),
        s.has_live(other, now) && other != dropped ==> next.seen.contains_key(other),
{
}

/// A table full of running windows refuses nobody for it: a new client is let
/// through if any hit is allowed at all, and is tracked from then on.
pub proof fn a_full_table_takes_a_new_client_in(
    s: LimiterState,
    key: Seq<char>,
    now: u128,
    next: LimiterState,
)
    requires
        s.is_bounded(),
        s.purged(now).is_full(),
        !s.seen.contains_key(key),
        s.leads_to(key, now, next),
    ensures
        s.admits(key, now) <==> 1 <= s.limit,
        next.seen.contains_key(key),
        next.seen.dom().len() == MAX_TRACKED,
{
    lemma_purged_is_smaller(s, now);
}

/// Once a client's window has run out, or if it never had one, its next hit
/// starts a window afresh, and is let through unless no hit is allowed at all.
pub proof fn a_new_window_starts_over(
    s: LimiterState,
    key: Seq<char>,
    now: u128,
    next: LimiterState,
)
    requires
        !s.has_live(key, now),
        s.leads_to(key, now, next),
    ensures
        s.admits(key, now) <==> 1 <= s.limit,
        next.seen.contains_key(key),
        next.seen[key] == (Window { started: now, hits: 1 }),
{
    lemma_own_hit(s, key, now, next);
}

/// A window runs for its length from its first hit and not a moment longer.
pub proof fn a_window_runs_its_length(
    s: LimiterState,
    key: Seq<char>,
    now: u128,
    next: LimiterState,
    later: u128,
)
    requires
        !s.has_live(key, now),
        s.leads_to(key, now, next),
        now <= later,
    ensures
        next.has_live(key, later) <==> later < now + s.window,
{
    lemma_own_hit(s, key, now, next);
}

/// Within one window, the hits that are let through are the first ones, up to
/// the limit. Of a series of hits of any clients, take one client's hits in
/// the window that its first hit, the first of the series, starts: each is let
/// through exactly if, with those before it, it is within the limit. Its
/// window must not have been dropped meanwhile to make room.
pub proof fn a_window_admits_up_to_its_limit(
    states: Seq<LimiterState>,
    hits: Seq<(Seq<char>, u128)>,
    n: nat,
)
    requires
        is_run(states, hits),
        n < hits.len(),
        hits[n as int].0 == hits[0].0,
        !states[0].has_live(hits[0].0, hits[0].1),
        forall|i: int|
            0 <= i <= n && (#[trigger] hits[i]).0 == hits[0].0 ==> hits[0].1 <= hits[i].1
                < hits[0].1 + states[0].window,
        forall|i: int| 0 < i <= n ==> (#[trigger] states[i]).seen.contains_key(hits[0].0),
    ensures
        states[n as int].admits(hits[n as int].0, hits[n as int].1) <==> hits_of(
            hits,
            hits[0].0,
            n,
        ) + 1 <= states[0].limit,
{
    if n > 0 {
        lemma_hits_are_counted(states, hits, n);
        assert(states[n as int].has_live(hits[0].0, hits[n as int].1));
    }
}

/// The count that a window holds after some hits.
spec fn held(n: nat) -> u32 {
    if n < u32::MAX {
        n as u32
    } else {
        u32::MAX
    }
}

proof fn lemma_hits_are_counted(states: Seq<LimiterState>, hits: Seq<(Seq<char>, u128)>, n: nat)
    requires
        is_run(states, hits),
        0 < n <= hits.len(),
        !states[0].has_live(hits[0].0, hits[0].1),
        forall|i: int|
            0 <= i < n && (#[trigger] hits[i]).0 == hits[0].0 ==> hits[0].1 <= hits[i].1
                < hits[0].1 + states[0].window,
        forall|i: int| 0 < i <= n ==> (#[trigger] states[i]).seen.contains_key(hits[0].0),
    ensures
        states[n as int].limit == states[0].limit,
        states[n as int].window == states[0].window,
        states[n as int].seen[hits[0].0].started == hits[0].1,
        states[n as int].seen[hits[0].0].hits == held(hits_of(hits, hits[0].0, n)),
        hits_of(hits, hits[0].0, n) >= 1,
    decreases n,
{
    let key = hits[0].0;
    let m = (n - 1) as nat;
    let (k, now) = hits[m as int];
    let s = states[m as int];
    let next = states[n as int];
    assert(s.leads_to(k, now, next));
    lemma_own_hit(s, k, now, next);
    if m == 0 {
        assert(hits_of(hits, key, 0) == 0);
    } else {
        lemma_hits_are_counted(states, hits, m);
        if k == key {
            lemma_running_window(s, key, now, hits[0].1, hits_of(hits, key, m));
        } else {
            lemma_other_hit(s, k, now, next, key);
            assert(next.seen.contains_key(key));
        }
    }
}

proof fn lemma_running_window(s: LimiterState, key: Seq<char>, now: u128, start: u128, n: nat)
    requires
        s.seen.contains_key(key),
        s.seen[key].started == start,
        s.seen[key].hits == held(n),
        start <= now < start + s.window,
    ensures
        s.has_live(key, now),
        s.hit_window(key, now).started == start,
        s.hit_window(key, now).hits == held(n + 1),
{
}

/// Clients are counted separately: a hit of one client leaves the window of
/// every other as it was, unless it is gone. A running one is gone only to
/// make room.
pub proof fn clients_are_counted_separately(
    s: LimiterState,
    a: Seq<char>,
    b: Seq<char>,
    now: u128,
    next: LimiterState,
)
    requires
        a != b,
        s.leads_to(a, now, next),
    ensures
        next.seen.contains_key(b) ==> s.seen.contains_key(b) && next.seen[b] == s.seen[b],
        s.has_room(a, now) && s.has_live(b, now) ==> next.seen.contains_key(b),
{
    lemma_other_hit(s, a, now, next, b);
}

/// One client never locks another out: whoever would have been let through is
/// let through still. Where no running window had to make room, nothing at all
/// changes for the other.
pub proof fn a_client_does_not_lock_out_another(
    s: LimiterState,
    a: Seq<char>,
    b: Seq<char>,
    now: u128,
    next: LimiterState,
    later: u128,
)
    requires
        a != b,
        now <= later,
        s.leads_to(a, now, next),
    ensures
        s.admits(b, later) ==> next.admits(b, later),
        s.has_room(a, now) ==> (next.admits(b, later) <==> s.admits(b, later)),
{
    lemma_own_hit(s, a, now, next);
    lemma_other_hit(s, a, now, next, b);
    if s.has_live(b, later) {
        assert(s.has_live(b, now));
    }
}

/// How many more hits of a client can be let through before `start + window`.
spec fn allowance(s: LimiterState, key: Seq<char>, start: u128) -> nat {
    if s.seen.contains_key(key) {
        let left: nat = if s.limit > s.seen[key].hits {
            (s.limit - s.seen[key].hits) as nat
        } else {
            0
        };
        if s.seen[key].started >= start {
            left
        } else {
            left + s.limit as nat
        }
    } else {
        s.limit as nat
    }
}

proof fn lemma_own_hit_spends(
    s: LimiterState,
    key: Seq<char>,
    now: u128,
    next: LimiterState,
    start: u128,
)
    requires
        s.leads_to(key, now, next),
        start <= now < start + s.window,
    ensures
        allowance(next, key, start) + (if s.admits(key, now) {
            1nat
        } else {
            0
        }) <= allowance(s, key, start),
{
    lemma_own_hit(s, key, now, next);
}

proof fn lemma_other_hit_spends_nothing(
    s: LimiterState,
    other: Seq<char>,
    now: u128,
    next: LimiterState,
    key: Seq<char>,
    start: u128,
)
    requires
        s.leads_to(other, now, next),
        other != key,
        s.seen.contains_key(key) && s.seen[key].started >= start ==> next.seen.contains_key(key),
    ensures
        allowance(next, key, start) <= allowance(s, key, start),
{
    lemma_own_hit(s, other, now, next);
    lemma_other_hit(s, other, now, next, key);
}

/// No hit of the series drops a window that a client started at or after some
/// time.
pub open spec fn keeps_windows(
    states: Seq<LimiterState>,
    hits: Seq<(Seq<char>, u128)>,
    key: Seq<char>,
    start: u128,
) -> bool {
    forall|i: int|
        #![trigger hits[i]]
        0 <= i < hits.len() && states[i].seen.contains_key(key) && states[i].seen[key].started
            >= start ==> states[i + 1].seen.contains_key(key)
}

proof fn lemma_allowance_is_spent(
    states: Seq<LimiterState>,
    hits: Seq<(Seq<char>, u128)>,
    key: Seq<char>,
    start: u128,
    n: nat,
)
    requires
        is_run(states, hits),
        n <= hits.len(),
        forall|i: int|
            0 <= i < hits.len() ==> start <= (#[trigger] hits[i]).1 < start + states[0].window,
        keeps_windows(states, hits, key, start),
    ensures
        states[n as int].limit == states[0].limit,
        states[n as int].window == states[0].window,
        admitted_of(states, hits, key, n) + allowance(states[n as int], key, start) <= allowance(
            states[0],
            key,
            start,
        ),
    decreases n,
{
    if n > 0 {
        let m = n - 1;
        lemma_allowance_is_spent(states, hits, key, start, m as nat);
        let (k, now) = hits[m];
        assert(states[m].leads_to(k, now, states[m + 1]));
        lemma_own_hit(states[m], k, now, states[m + 1]);
        if k == key {
            lemma_own_hit_spends(states[m], key, now, states[m + 1], start);
        } else {
            lemma_other_hit_spends_nothing(states[m], k, now, states[m + 1], key, start);
        }
    }
}

/// A burst of one client, across a window boundary or not, gets at most twice
/// the limit through within the length of one window, whatever other hits
/// arrive meanwhile, as long as none of them drops a window that the client
/// started in that time.
pub proof fn a_burst_reaches_at_most_twice_the_limit(
    states: Seq<LimiterState>,
    hits: Seq<(Seq<char>, u128)>,
    key: Seq<char>,
    start: u128,
)
    requires
        is_run(states, hits),
        forall|i: int|
            0 <= i < hits.len() ==> start <= (#[trigger] hits[i]).1 < start + states[0].window,
        keeps_windows(states, hits, key, start),
    ensures
        admitted_of(states, hits, key, hits.len()) <= 2 * states[0].limit,
{
    lemma_allowance_is_spent(states, hits, key, start, hits.len());
}

} // verus!
