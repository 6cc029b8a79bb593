//! Whom a hit is counted under, and which hits are let through.
use crate::deps::nanos_since;
use crate::laws::auth::sent;
use crate::laws::text::{is_trimmed, trimming_takes_off_white_space_and_nothing_else};
use crate::ratelimit::{
    client_from, client_key, client_of, lemma_reading, LimiterState, RateLimiter,
};
use crate::routes::installs::{check_client, client_behind, unless_poisoned, Admission};
use crate::text::{
    is_blank, split_on, the_first_piece_precedes_the_separator, trimming_empties_only_blanks,
};
use axum::http::{HeaderMap, HeaderValue};
use vstd::prelude::*;

verus! {

// --- the client -------------------------------------------------------------

/// The part of a chain of proxies before its first comma.
pub open spec fn first_entry(chain: Seq<char>) -> Seq<char> {
    if chain.contains(',') {
        chain.take(chain.index_of_first(',')->0)
    } else {
        chain
    }
}

/// The client behind a request: what the tunnel header says, if it says
/// anything; else what the chain starts with, if that says anything; else the
/// address of the socket; and only without any of these nobody known.
pub open spec fn is_client(
    tunnel: Option<Seq<char>>,
    chain: Option<Seq<char>>,
    socket: Option<Seq<char>>,
    client: Seq<char>,
) -> bool {
    if tunnel is Some && !is_blank(tunnel->0) {
        is_trimmed(tunnel->0, client)
    } else if chain is Some && !is_blank(first_entry(chain->0)) {
        is_trimmed(first_entry(chain->0), client)
    } else if socket is Some && socket->0 != Seq::<char>::empty() {
        client == socket->0
    } else {
        client == "unknown"@
    }
}

proof fn lemma_first_entry(chain: Seq<char>)
    ensures
        split_on(chain, ',')[0] == first_entry(chain),
{
    if chain.contains(',') {
        chain.index_of_first_ensures(',');
        let i = chain.index_of_first(',')->0;
        let first = chain.take(i);
        let rest = chain.skip(i + 1);
        assert(!first.contains(',')) by {
            assert forall|k: int| 0 <= k < first.len() implies first[k] != ',' by {
                assert(first[k] == chain[k]);
            }
        }
        the_first_piece_precedes_the_separator(first, rest, ',');
        assert(first.push(',') + rest =~= chain);
    } else {
        the_first_piece_precedes_the_separator(chain, Seq::empty(), ',');
    }
}

proof fn lemma_client(
    tunnel: Option<Seq<char>>,
    chain: Option<Seq<char>>,
    socket: Option<Seq<char>>,
)
    ensures
        is_client(tunnel, chain, socket, client_of(tunnel, chain, socket)),
{
    if tunnel is Some {
        trimming_empties_only_blanks(tunnel->0);
        trimming_takes_off_white_space_and_nothing_else(tunnel->0);
    }
    if chain is Some {
        lemma_first_entry(chain->0);
        trimming_empties_only_blanks(first_entry(chain->0));
        trimming_takes_off_white_space_and_nothing_else(first_entry(chain->0));
    }
    if socket is Some && socket->0.len() == 0 {
        assert(socket->0 =~= Seq::<char>::empty());
    }
}

/// A client is named by the tunnel, else by the chain, else by its socket.
pub proof fn a_client_is_named(
    tunnel: Option<&str>,
    chain: Option<&str>,
    headers: &HeaderMap<HeaderValue>,
    socket: Option<&str>,
    direct: String,
    key: String,
)
    requires
        call_ensures(client_from, (tunnel, chain, socket), direct),
        call_ensures(client_key, (headers, socket), key),
    ensures
        is_client(tunnel.deep_view(), chain.deep_view(), socket.deep_view(), direct@),
        is_client(
            sent(*headers, "cf-connecting-ip"@),
            sent(*headers, "x-forwarded-for"@),
            socket.deep_view(),
            key@,
        ),
{
    lemma_client(tunnel.deep_view(), chain.deep_view(), socket.deep_view());
    lemma_client(
        sent(*headers, "cf-connecting-ip"@),
        sent(*headers, "x-forwarded-for"@),
        socket.deep_view(),
    );
}

/// Without the headers a client is known by its socket, so two clients on
/// different sockets are told apart.
pub proof fn sockets_tell_clients_apart(
    a: &HeaderMap<HeaderValue>,
    b: &HeaderMap<HeaderValue>,
    x: &str,
    y: &str,
    of_a: String,
    of_b: String,
)
    requires
        sent(*a, "cf-connecting-ip"@) is None,
        sent(*a, "x-forwarded-for"@) is None,
        sent(*b, "cf-connecting-ip"@) is None,
        sent(*b, "x-forwarded-for"@) is None,
        x@.len() > 0,
        y@.len() > 0,
        call_ensures(client_key, (a, Some(x)), of_a),
        call_ensures(client_key, (b, Some(y)), of_b),
    ensures
        of_a@ == x@,
        of_b@ == y@,
        x@ != y@ ==> of_a@ != of_b@,
{
}

// --- the count --------------------------------------------------------------

/// Whether a client has a window that, at `now`, is younger than windows get.
pub open spec fn is_running(s: LimiterState, key: Seq<char>, now: u128) -> bool {
    s.seen.contains_key(key) && (if now >= s.seen[key].started {
        now - s.seen[key].started
    } else {
        0
    }) < s.window
}

/// What one hit does. It is let through exactly if it and the hits before it in
/// the client's running window are within the limit. It is counted in that
/// window, or starts one. Nobody else's window changes. None is dropped while
/// the table holds fewer than 20,000; past that, one that has run out may be,
/// and one that is still running only if all of them are and no other started
/// before it, and only for a client without one.
pub open spec fn is_hit(
    before: LimiterState,
    key: Seq<char>,
    now: u128,
    after: LimiterState,
    admitted: bool,
) -> bool {
    let hits: int = if is_running(before, key, now) {
        before.seen[key].hits + 1
    } else {
        1
    };
    &&& admitted <==> hits <= before.limit
    &&& after.limit == before.limit
    &&& after.window == before.window
    &&& after.epoch == before.epoch
    &&& after.seen.contains_key(key)
    &&& after.seen[key].hits == if hits <= u32::MAX {
        hits
    } else {
        u32::MAX as int
    }
    &&& after.seen[key].started == if is_running(before, key, now) {
        before.seen[key].started
    } else {
        now
    }
    &&& forall|other: Seq<char>| #[trigger]
        after.seen.contains_key(other) && other != key ==> before.seen.contains_key(other)
            && after.seen[other] == before.seen[other]
    &&& forall|other: Seq<char>| #[trigger]
        before.seen.contains_key(other) && !after.seen.contains_key(other) ==> {
            &&& before.seen.dom().len() >= 20_000
            &&& is_running(before, other, now) ==> {
                &&& !is_running(before, key, now)
                &&& forall|k: Seq<char>| #[trigger]
                    before.seen.contains_key(k) && is_running(before, k, now)
                        ==> before.seen[other].started <= before.seen[k].started
                &&& before.seen.dom().finite() && before.seen.dom().len() <= 20_000 ==> forall|
                    k: Seq<char>,
                | #[trigger]
                    before.seen.contains_key(k) ==> is_running(before, k, now)
            }
        }
}

proof fn lemma_all_are_running(s: LimiterState, now: u128)
    requires
        s.seen.dom().finite(),
        s.seen.dom().len() <= 20_000,
        s.purged(now).is_full(),
    ensures
        forall|k: Seq<char>| #[trigger] s.seen.contains_key(k) ==> is_running(s, k, now),
{
    let kept = s.purged(now).seen.dom();
    assert(kept.subset_of(s.seen.dom()));
    vstd::set_lib::lemma_len_subset(kept, s.seen.dom());
    vstd::set_lib::lemma_subset_equality(kept, s.seen.dom());
    assert forall|k: Seq<char>| #[trigger] s.seen.contains_key(k) implies is_running(s, k, now) by {
        assert(kept.contains(k));
        assert(s.has_live(k, now));
    }
}

proof fn lemma_is_hit(s: LimiterState, key: Seq<char>, now: u128, next: LimiterState)
    requires
        s.leads_to(key, now, next),
    ensures
        is_hit(s, key, now, next, s.admits(key, now)),
{
    assert forall|k: Seq<char>| s.has_live(k, now) <==> is_running(s, k, now) by {}
    assert forall|other: Seq<char>| #[trigger]
        after_lacks(s, next, other) implies s.seen.dom().len() >= 20_000 && (is_running(
        s,
        other,
        now,
    ) ==> !is_running(s, key, now) && forall|k: Seq<char>| #[trigger]
        s.seen.contains_key(k) && is_running(s, k, now) ==> s.seen[other].started
            <= s.seen[k].started) && (is_running(s, other, now) && s.seen.dom().finite()
        && s.seen.dom().len() <= 20_000 ==> forall|k: Seq<char>| #[trigger]
        s.seen.contains_key(k) ==> is_running(s, k, now)) by {
        if is_running(s, other, now) {
            if s.seen.dom().finite() && s.seen.dom().len() <= 20_000 {
                lemma_all_are_running(s, now);
            }
            assert forall|k: Seq<char>| #[trigger]
                s.seen.contains_key(k) && is_running(s, k, now) implies s.seen[other].started
                <= s.seen[k].started by {
                assert(s.relieved(now).seen.contains_key(k));
            }
        }
    }
    assert forall|other: Seq<char>| #[trigger]
        s.seen.contains_key(other) && !next.seen.contains_key(other) implies after_lacks(
        s,
        next,
        other,
    ) by {}
}

spec fn after_lacks(s: LimiterState, next: LimiterState, other: Seq<char>) -> bool {
    s.seen.contains_key(other) && !next.seen.contains_key(other)
}

/// A new limiter allows what it was made to allow and has seen nobody.
pub proof fn a_new_limiter_has_seen_nobody(limit: u32, window: u128, res: RateLimiter)
    requires
        call_ensures(RateLimiter::new, (limit, window), res),
    ensures
        res.wf(),
        res@.limit == limit,
        res@.window == window,
        forall|key: Seq<char>| !res@.seen.contains_key(key),
{
}

/// A hit at a given time does what a hit does, at that time.
pub proof fn a_hit_is_counted()
    ensures
        forall|limiter: &mut RateLimiter, key: &str, now: u128, admitted: bool| #[trigger]
            call_ensures(RateLimiter::check_at, (limiter, key, now), admitted) ==> is_hit(
                (*limiter)@,
                key@,
                now,
                (*final(limiter))@,
                admitted,
            ),
{
    assert forall|limiter: &mut RateLimiter, key: &str, now: u128, admitted: bool| #[trigger]
        call_ensures(RateLimiter::check_at, (limiter, key, now), admitted) implies is_hit(
        (*limiter)@,
        key@,
        now,
        (*final(limiter))@,
        admitted,
    ) by {
        lemma_is_hit((*limiter)@, key@, now, (*final(limiter))@);
    }
}

/// However many clients come, a limiter remembers at most 20,000 of them.
pub proof fn a_limiter_remembers_at_most_20_000_clients()
    ensures
        forall|limiter: &mut RateLimiter, key: &str, now: u128, admitted: bool| #[trigger]
            call_ensures(RateLimiter::check_at, (limiter, key, now), admitted) ==> {
                &&& (*final(limiter)).wf()
                &&& (*final(limiter))@.seen.dom().finite()
                &&& (*final(limiter))@.seen.dom().len() <= 20_000
            },
{
    assert forall|limiter: &mut RateLimiter, key: &str, now: u128, admitted: bool| #[trigger]
        call_ensures(RateLimiter::check_at, (limiter, key, now), admitted) implies {
        &&& (*final(limiter)).wf()
        &&& (*final(limiter))@.seen.dom().finite()
        &&& (*final(limiter))@.seen.dom().len() <= 20_000
    } by {
        crate::ratelimit::a_limiter_is_bounded(*final(limiter));
    }
}

/// A hit does what a hit does at some time that the limiter's clock may read.
pub proof fn a_hit_is_counted_now()
    ensures
        forall|limiter: &mut RateLimiter, key: &str, admitted: bool| #[trigger]
            call_ensures(RateLimiter::check, (limiter, key), admitted) ==> exists|now: u128|
                #[trigger] (*limiter)@.may_read(now) && is_hit(
                    (*limiter)@,
                    key@,
                    now,
                    (*final(limiter))@,
                    admitted,
                ),
{
    assert forall|limiter: &mut RateLimiter, key: &str, admitted: bool| #[trigger]
        call_ensures(RateLimiter::check, (limiter, key), admitted) implies exists|now: u128|
        #[trigger] (*limiter)@.may_read(now) && is_hit(
            (*limiter)@,
            key@,
            now,
            (*final(limiter))@,
            admitted,
        ) by {
        let s = (*limiter)@;
        let next = (*final(limiter))@;
        let now = choose|now: u128| #[trigger]
            s.leads_to(key@, now, next) && s.may_read(now) && admitted == s.admits(key@, now);
        lemma_is_hit(s, key@, now, next);
    }
}

/// What a limiter's clock may read is the time since the limiter was made.
pub(crate) proof fn the_clock_counts_from_the_start(s: LimiterState, now: u128)
    requires
        s.may_read(now),
    ensures
        call_ensures(nanos_since, (&s.epoch,), now),
{
    lemma_reading(s, now);
}

/// A request is counted as a hit of the client behind it, and is granted
/// exactly if that hit is let through.
pub proof fn a_request_is_counted_under_its_client()
    ensures
        forall|
            limiter: &mut RateLimiter,
            headers: &HeaderMap<HeaderValue>,
            socket: Option<&str>,
            res: Admission,
        | #[trigger]
            call_ensures(check_client, (limiter, headers, socket), res) ==> exists|
                now: u128,
                client: Seq<char>,
            |
                {
                    &&& #[trigger] (*limiter)@.may_read(now)
                    &&& #[trigger] is_client(
                        sent(*headers, "cf-connecting-ip"@),
                        sent(*headers, "x-forwarded-for"@),
                        socket.deep_view(),
                        client,
                    )
                    &&& is_hit((*limiter)@, client, now, (*final(limiter))@, res.granted())
                },
{
    assert forall|
        limiter: &mut RateLimiter,
        headers: &HeaderMap<HeaderValue>,
        socket: Option<&str>,
        res: Admission,
    | #[trigger]
        call_ensures(check_client, (limiter, headers, socket), res) implies exists|
        now: u128,
        client: Seq<char>,
    |
        {
            &&& #[trigger] (*limiter)@.may_read(now)
            &&& #[trigger] is_client(
                sent(*headers, "cf-connecting-ip"@),
                sent(*headers, "x-forwarded-for"@),
                socket.deep_view(),
                client,
            )
            &&& is_hit((*limiter)@, client, now, (*final(limiter))@, res.granted())
        } by {
        let s = (*limiter)@;
        let next = (*final(limiter))@;
        let client = client_behind(*headers, socket.deep_view());
        lemma_client(
            sent(*headers, "cf-connecting-ip"@),
            sent(*headers, "x-forwarded-for"@),
            socket.deep_view(),
        );
        let now = choose|now: u128| #[trigger]
            s.leads_to(client, now, next) && s.may_read(now) && res.granted() == s.admits(
                client,
                now,
            );
        lemma_is_hit(s, client, now, next);
    }
}

/// A client that the limiter has not seen is let through if anybody is,
/// however busy others are: without the headers, one on a socket that no hit
/// came from yet.
pub proof fn a_new_socket_is_not_locked_out()
    ensures
        forall|
            limiter: &mut RateLimiter,
            headers: &HeaderMap<HeaderValue>,
            socket: &str,
            res: Admission,
        | #[trigger]
            call_ensures(check_client, (limiter, headers, Some(socket)), res) && sent(
                *headers,
                "cf-connecting-ip"@,
            ) is None && sent(*headers, "x-forwarded-for"@) is None && socket@.len() > 0
                && !(*limiter)@.seen.contains_key(socket@) ==> {
                &&& res.granted() <==> 1 <= (*limiter)@.limit
                &&& (*final(limiter))@.seen.contains_key(socket@)
                &&& (*final(limiter))@.seen[socket@].hits == 1
            },
{
    a_request_is_counted_under_its_client();
    assert forall|
        limiter: &mut RateLimiter,
        headers: &HeaderMap<HeaderValue>,
        socket: &str,
        res: Admission,
    | #[trigger]
        call_ensures(check_client, (limiter, headers, Some(socket)), res) && sent(
            *headers,
            "cf-connecting-ip"@,
        ) is None && sent(*headers, "x-forwarded-for"@) is None && socket@.len() > 0
            && !(*limiter)@.seen.contains_key(socket@) implies {
        &&& res.granted() <==> 1 <= (*limiter)@.limit
        &&& (*final(limiter))@.seen.contains_key(socket@)
        &&& (*final(limiter))@.seen[socket@].hits == 1
    } by {
        let given = Some(socket);
        assert(given.deep_view() == Some(socket@));
        let (now, client) = choose|now: u128, client: Seq<char>|
            {
                &&& #[trigger] (*limiter)@.may_read(now)
                &&& #[trigger] is_client(
                    sent(*headers, "cf-connecting-ip"@),
                    sent(*headers, "x-forwarded-for"@),
                    given.deep_view(),
                    client,
                )
                &&& is_hit((*limiter)@, client, now, (*final(limiter))@, res.granted())
            };
        assert(client == socket@);
    }
}

/// What the limiter said stands, and one that cannot be asked lets through.
pub proof fn a_limiter_that_cannot_be_asked_lets_through(
    checked: Option<Admission>,
    res: Admission,
)
    requires
        call_ensures(unless_poisoned, (checked,), res),
    ensures
        checked is None ==> res.granted(),
        checked is Some ==> (res.granted() <==> checked->0.granted()),
{
}

} // verus!
