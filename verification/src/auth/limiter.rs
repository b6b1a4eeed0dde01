//! Sliding-window limit on login attempts, kept per source address.
//!
//! Each address has a log of the times at which an attempt of it was let
//! through. A new attempt first drops from the log what has left the
//! window; it is let through, and logged, if fewer than the maximum are
//! left. An attempt that is turned away leaves no trace, so a client at the
//! limit is never pushed further back by trying again.
//!
//! Times are milliseconds on a clock that does not run backwards. A logged
//! time that lies ahead of the clock counts as within the window.

use std::collections::HashMap;
use std::hash::Hash;
use vstd::prelude::*;
use vstd::std_specs::hash::*;

verus! {

broadcast use vstd::std_specs::hash::group_hash_axioms;

/// Length of the window, in milliseconds.
pub const RATE_LIMIT_WINDOW_MS: u64 = 60_000;

/// Attempts that one address may make within one window.
pub const MAX_ATTEMPTS_PER_WINDOW: usize = 10;

/// A source address: the 32 bits of an IPv4 address or the 128 bits of an
/// IPv6 address, most significant octet first. The two kinds never compare
/// equal.
#[derive(Debug, Clone, Copy, PartialEq, Eq, Structural)]
pub enum ClientAddr {
    V4(u32),
    V6(u128),
}

impl ClientAddr {
    /// The IPv4 address `a.b.c.d`.
    pub fn v4(a: u8, b: u8, c: u8, d: u8) -> (addr: ClientAddr)
        ensures
            addr == ClientAddr::V4((a * 16777216 + b * 65536 + c * 256 + d) as u32),
    {
        let bits: u32 = (a as u32) * 16777216 + (b as u32) * 65536 + (c as u32) * 256 + (d as u32);
        ClientAddr::V4(bits)
    }

    /// The IPv4 loopback address, `127.0.0.1`.
    pub fn localhost() -> (addr: ClientAddr)
        ensures
            addr == ClientAddr::V4(0x7f00_0001),
    {
        ClientAddr::V4(0x7f00_0001)
    }
}

/// What the limiter says to an attempt.
#[derive(Debug, Clone, Copy, PartialEq, Eq, Structural)]
pub enum Verdict {
    Allowed,
    Rejected,
}

/// Whether an attempt logged at `t` still counts at `now`: less than a
/// window has passed since.
pub open spec fn in_window(t: u64, now: u64) -> bool {
    now - t < RATE_LIMIT_WINDOW_MS
}

/// What is left of a log at `now`: the attempts within the window, in
/// their order.
pub open spec fn recent(attempts: Seq<u64>, now: u64) -> Seq<u64> {
    attempts.filter(|t: u64| in_window(t, now))
}

/// Whether an address with the log `attempts` may make an attempt at `now`.
pub open spec fn admits(attempts: Seq<u64>, now: u64) -> bool {
    recent(attempts, now).len() < MAX_ATTEMPTS_PER_WINDOW
}

/// The log after an attempt at `now`: pruned in any case, and with `now`
/// at its end if the attempt was let through.
pub open spec fn after_check(attempts: Seq<u64>, now: u64) -> Seq<u64> {
    if admits(attempts, now) {
        recent(attempts, now).push(now)
    } else {
        recent(attempts, now)
    }
}

/// The log after attempts at each of `times`, in order.
pub open spec fn after_checks(attempts: Seq<u64>, times: Seq<u64>) -> Seq<u64>
    decreases times.len(),
{
    if times.len() == 0 {
        attempts
    } else {
        after_check(after_checks(attempts, times.drop_last()), times.last())
    }
}

/// Whether the `k`-th of the attempts at `times` is let through.
pub open spec fn admitted_at(attempts: Seq<u64>, times: Seq<u64>, k: int) -> bool {
    admits(after_checks(attempts, times.take(k)), times[k])
}

/// Whether `times` never goes back.
pub open spec fn nondecreasing(times: Seq<u64>) -> bool {
    forall|i: int, j: int| 0 <= i <= j < times.len() ==> times[i] <= times[j]
}

/// The log that a table holds for `addr`: empty where it holds none.
pub open spec fn recorded(table: Map<ClientAddr, Seq<u64>>, addr: ClientAddr) -> Seq<u64> {
    if table.contains_key(addr) {
        table[addr]
    } else {
        Seq::empty()
    }
}

/// Whether no log of a table is longer than the maximum.
pub open spec fn bounded(table: Map<ClientAddr, Seq<u64>>) -> bool {
    forall|addr: ClientAddr| #[trigger]
        table.contains_key(addr) ==> table[addr].len() <= MAX_ATTEMPTS_PER_WINDOW
}

/// The rate limiter: one log for each address that has made an attempt.
/// Addresses are never forgotten; the table grows with the number of
/// distinct addresses seen.
pub struct RateLimiter {
    v4: HashMap<u32, Vec<u64>>,
    v6: HashMap<u128, Vec<u64>>,
}

impl View for RateLimiter {
    type V = Map<ClientAddr, Seq<u64>>;

    closed spec fn view(&self) -> Map<ClientAddr, Seq<u64>> {
        Map::new(
            |addr: ClientAddr|
                match addr {
                    ClientAddr::V4(k) => self.v4@.contains_key(k),
                    ClientAddr::V6(k) => self.v6@.contains_key(k),
                },
            |addr: ClientAddr|
                match addr {
                    ClientAddr::V4(k) => self.v4@[k]@,
                    ClientAddr::V6(k) => self.v6@[k]@,
                },
        )
    }
}

/// The log that a hash table holds under `key`: empty where it holds none.
spec fn log_of<K>(table: Map<K, Vec<u64>>, key: K) -> Seq<u64> {
    if table.contains_key(key) {
        table[key]@
    } else {
        Seq::empty()
    }
}

/// What is left of `attempts` at `now`.
fn prune(attempts: &Vec<u64>, now: u64) -> (kept: Vec<u64>)
    ensures
        kept@ == recent(attempts@, now),
{
    let mut kept: Vec<u64> = Vec::new();
    let mut i: usize = 0;
    proof {
        lemma_recent_len(attempts@.take(0), now);
    }
    while i < attempts.len()
        invariant
            i <= attempts.len(),
            kept@ == recent(attempts@.take(i as int), now),
        decreases attempts.len() - i,
    {
        let t = attempts[i];
        proof {
            assert(attempts@.take(i + 1) =~= attempts@.take(i as int).push(t));
            lemma_recent_push(attempts@.take(i as int), t, now);
        }
        if t > now || now - t < RATE_LIMIT_WINDOW_MS {
            kept.push(t);
        }
        i = i + 1;
    }
    proof {
        assert(attempts@.take(attempts@.len() as int) =~= attempts@);
    }
    kept
}

/// One check against the log that `table` holds under `key`.
fn check_entry<K: Copy + Eq + Hash>(table: &mut HashMap<K, Vec<u64>>, key: K, now: u64) -> (allowed:
    bool)
    requires
        obeys_key_model::<K>(),
    ensures
        allowed == admits(log_of(old(table)@, key), now),
        final(table)@.dom() == old(table)@.dom().insert(key),
        final(table)@[key]@ == after_check(log_of(old(table)@, key), now),
        forall|other: K| other != key && old(table)@.contains_key(other) ==> final(table)@[other]
            == old(table)@[other],
{
    let previous = table.remove(&key);
    let mut kept = match previous {
        Some(attempts) => prune(&attempts, now),
        None => {
            proof {
                lemma_recent_len(Seq::<u64>::empty(), now);
            }
            Vec::new()
        },
    };
    let allowed = kept.len() < MAX_ATTEMPTS_PER_WINDOW;
    if allowed {
        kept.push(now);
    }
    table.insert(key, kept);
    proof {
        assert(final(table)@.dom() =~= old(table)@.dom().insert(key));
    }
    allowed
}

impl RateLimiter {
    /// Whether no log is longer than the maximum. It holds of every
    /// limiter that this module hands out.
    pub open spec fn wf(&self) -> bool {
        bounded(self@)
    }

    /// A limiter that has seen no attempt.
    pub fn new() -> (limiter: RateLimiter)
        ensures
            limiter@ == Map::<ClientAddr, Seq<u64>>::empty(),
            limiter.wf(),
    {
        let limiter = RateLimiter { v4: HashMap::new(), v6: HashMap::new() };
        proof {
            assert(limiter@ =~= Map::<ClientAddr, Seq<u64>>::empty());
        }
        limiter
    }

    /// An attempt of `addr` at the time `now`. Logs of other addresses
    /// stay as they are.
    pub fn check(&mut self, addr: ClientAddr, now: u64) -> (verdict: Verdict)
        requires
            old(self).wf(),
        ensures
            final(self).wf(),
            verdict == if admits(recorded(old(self)@, addr), now) {
                Verdict::Allowed
            } else {
                Verdict::Rejected
            },
            final(self)@ == old(self)@.insert(addr, after_check(recorded(old(self)@, addr), now)),
    {
        let allowed = match addr {
            ClientAddr::V4(key) => check_entry(&mut self.v4, key, now),
            ClientAddr::V6(key) => check_entry(&mut self.v6, key, now),
        };
        proof {
            let log = recorded(old(self)@, addr);
            lemma_after_check_bounded(log, now);
            assert(final(self)@ =~= old(self)@.insert(addr, after_check(log, now)));
        }
        if allowed {
            Verdict::Allowed
        } else {
            Verdict::Rejected
        }
    }
}

/// Addresses do not share a limit: an attempt of one address leaves the
/// log of every other, and so the verdict on its next attempt, as it was.
pub proof fn law_addresses_are_independent(
    table: Map<ClientAddr, Seq<u64>>,
    addr: ClientAddr,
    other: ClientAddr,
    at: u64,
    now: u64,
)
    requires
        other != addr,
    ensures
        recorded(table.insert(other, after_check(recorded(table, other), at)), addr) == recorded(
            table,
            addr,
        ),
        admits(
            recorded(table.insert(other, after_check(recorded(table, other), at)), addr),
            now,
        ) == admits(recorded(table, addr), now),
{
}

/// Pruning an empty log leaves it empty; pruning never lengthens a log.
pub proof fn lemma_recent_len(attempts: Seq<u64>, now: u64)
    ensures
        recent(attempts, now).len() <= attempts.len(),
        attempts.len() == 0 ==> recent(attempts, now) == attempts,
{
    reveal(Seq::filter);
    attempts.lemma_filter_len(|t: u64| in_window(t, now));
}

/// Pruning a log with one more entry at its end.
pub proof fn lemma_recent_push(attempts: Seq<u64>, t: u64, now: u64)
    ensures
        recent(attempts.push(t), now) == if in_window(t, now) {
            recent(attempts, now).push(t)
        } else {
            recent(attempts, now)
        },
{
    reveal(Seq::filter);
    assert(attempts.push(t).drop_last() =~= attempts);
}

/// What is within the window at a later time was within it before: to
/// prune at `earlier` and then at `later` is to prune at `later`.
pub proof fn lemma_recent_twice(attempts: Seq<u64>, earlier: u64, later: u64)
    requires
        earlier <= later,
    ensures
        recent(recent(attempts, earlier), later) == recent(attempts, later),
    decreases attempts.len(),
{
    lemma_recent_len(attempts, earlier);
    lemma_recent_len(attempts, later);
    if attempts.len() == 0 {
        lemma_recent_len(recent(attempts, earlier), later);
    } else {
        let head = attempts.drop_last();
        let t = attempts.last();
        assert(head.push(t) =~= attempts);
        lemma_recent_twice(head, earlier, later);
        lemma_recent_push(head, t, earlier);
        lemma_recent_push(head, t, later);
        if in_window(t, earlier) {
            lemma_recent_push(recent(head, earlier), t, later);
        }
    }
}

/// A log that holds an attempt which has left the window gets shorter
/// when it is pruned.
pub proof fn lemma_recent_drops(attempts: Seq<u64>, now: u64, i: int)
    requires
        0 <= i < attempts.len(),
        !in_window(attempts[i], now),
    ensures
        recent(attempts, now).len() < attempts.len(),
    decreases attempts.len(),
{
    let head = attempts.drop_last();
    let t = attempts.last();
    assert(head.push(t) =~= attempts);
    lemma_recent_push(head, t, now);
    lemma_recent_len(head, now);
    if i < head.len() {
        lemma_recent_drops(head, now, i);
    }
}

/// A log of which nothing is left within the window is empty once pruned.
pub proof fn lemma_recent_none(attempts: Seq<u64>, now: u64)
    requires
        forall|i: int| 0 <= i < attempts.len() ==> !in_window(#[trigger] attempts[i], now),
    ensures
        recent(attempts, now).len() == 0,
    decreases attempts.len(),
{
    lemma_recent_len(attempts, now);
    if attempts.len() > 0 {
        let head = attempts.drop_last();
        let t = attempts.last();
        assert(head.push(t) =~= attempts);
        lemma_recent_push(head, t, now);
        lemma_recent_none(head, now);
    }
}

/// No check leaves a log with more than the maximum of entries, provided
/// it held no more before.
pub proof fn lemma_after_check_bounded(attempts: Seq<u64>, now: u64)
    requires
        attempts.len() <= MAX_ATTEMPTS_PER_WINDOW,
    ensures
        after_check(attempts, now).len() <= MAX_ATTEMPTS_PER_WINDOW,
{
    lemma_recent_len(attempts, now);
}

/// Attempts never make a log longer than what the first of them left of
/// it, plus one entry for each.
proof fn lemma_after_checks_len(attempts: Seq<u64>, times: Seq<u64>)
    requires
        times.len() > 0,
    ensures
        after_checks(attempts, times).len() <= recent(attempts, times[0]).len() + times.len(),
    decreases times.len(),
{
    let head = times.drop_last();
    let mid = after_checks(attempts, head);
    lemma_recent_len(mid, times.last());
    if head.len() == 0 {
        assert(mid == attempts);
    } else {
        lemma_after_checks_len(attempts, head);
    }
}

/// Capacity: as many attempts as the window still has room for are all let
/// through, at whatever times they come. An address of which nothing is
/// logged has room for the full maximum.
pub proof fn law_attempts_within_capacity_are_allowed(
    attempts: Seq<u64>,
    times: Seq<u64>,
    k: int,
)
    requires
        0 <= k < times.len(),
        recent(attempts, times[0]).len() + times.len() <= MAX_ATTEMPTS_PER_WINDOW,
    ensures
        admitted_at(attempts, times, k),
{
    let before = times.take(k);
    let mid = after_checks(attempts, before);
    lemma_recent_len(mid, times[k]);
    if k == 0 {
        assert(mid == attempts);
    } else {
        lemma_after_checks_len(attempts, before);
    }
}

/// After `n` attempts that were all let through, at times that never go
/// back, all `n` are still counted at any time from the last of them up to
/// one window after the first.
proof fn lemma_admitted_are_counted(attempts: Seq<u64>, times: Seq<u64>, at: u64)
    requires
        nondecreasing(times),
        forall|k: int| 0 <= k < times.len() ==> admitted_at(attempts, times, k),
        times.len() > 0 ==> times.last() <= at && at - times[0] < RATE_LIMIT_WINDOW_MS,
    ensures
        recent(after_checks(attempts, times), at).len() >= times.len(),
    decreases times.len(),
{
    if times.len() > 0 {
        let head = times.drop_last();
        let t = times.last();
        let mid = after_checks(attempts, head);
        assert(times.take(head.len() as int) =~= head);
        assert(admitted_at(attempts, times, head.len() as int));
        assert(after_checks(attempts, times) == recent(mid, t).push(t));
        assert forall|k: int| 0 <= k < head.len() implies admitted_at(attempts, head, k) by {
            assert(admitted_at(attempts, times, k));
            assert(head.take(k) =~= times.take(k));
        }
        if head.len() > 0 {
            assert(head.last() == times[head.len() - 1]);
            assert(head[0] == times[0]);
        }
        lemma_admitted_are_counted(attempts, head, at);
        lemma_recent_push(recent(mid, t), t, at);
        lemma_recent_twice(mid, t, at);
    }
}

/// The limit: once the maximum of attempts has been let through at times
/// that never go back, a further attempt that comes less than one window
/// after the first of them is turned away.
pub proof fn law_attempt_over_limit_is_rejected(attempts: Seq<u64>, times: Seq<u64>)
    requires
        times.len() == MAX_ATTEMPTS_PER_WINDOW + 1,
        nondecreasing(times),
        times.last() - times[0] < RATE_LIMIT_WINDOW_MS,
        forall|k: int| 0 <= k < MAX_ATTEMPTS_PER_WINDOW ==> admitted_at(attempts, times, k),
    ensures
        !admitted_at(attempts, times, MAX_ATTEMPTS_PER_WINDOW as int),
{
    let head = times.take(MAX_ATTEMPTS_PER_WINDOW as int);
    assert forall|k: int| 0 <= k < head.len() implies admitted_at(attempts, head, k) by {
        assert(admitted_at(attempts, times, k));
        assert(head.take(k) =~= times.take(k));
    }
    assert(head.last() == times[MAX_ATTEMPTS_PER_WINDOW - 1]);
    assert(head[0] == times[0]);
    lemma_admitted_are_counted(attempts, head, times.last());
}

/// Recovery: an address whose log holds an attempt that lies a full window
/// back, the earliest or any other, is let through again. When all of them
/// lie that far back the log starts over with the new attempt alone.
pub proof fn law_capacity_returns_after_window(attempts: Seq<u64>, now: u64, i: int)
    requires
        attempts.len() <= MAX_ATTEMPTS_PER_WINDOW,
        0 <= i < attempts.len(),
        now - attempts[i] >= RATE_LIMIT_WINDOW_MS,
    ensures
        admits(attempts, now),
        (forall|j: int| 0 <= j < attempts.len() ==> now - #[trigger] attempts[j]
            >= RATE_LIMIT_WINDOW_MS) ==> after_check(attempts, now) == seq![now],
{
    lemma_recent_drops(attempts, now, i);
    if forall|j: int| 0 <= j < attempts.len() ==> now - #[trigger] attempts[j]
        >= RATE_LIMIT_WINDOW_MS {
        lemma_recent_none(attempts, now);
        assert(recent(attempts, now) =~= Seq::<u64>::empty());
        assert(after_check(attempts, now) =~= seq![now]);
    }
}

} // verus!
