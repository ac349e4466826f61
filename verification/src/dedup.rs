//! Suppression of retransmitted requests.
//!
//! A request is claimed under a key made of a namespace and its Call-ID. The
//! first claim of a key succeeds and holds for a short time; a claim of a key
//! that is held fails, and the request is dropped as a retransmission. In a
//! deployment the keys live in shared storage, which makes each claim in one
//! atomic step of its own; `ClaimTable` keeps them in memory, with the same
//! rules.
use crate::strmap::StringMap;
use crate::text::{from_chars, push_str};
use vstd::prelude::*;

verus! {

/// Seconds for which the claim of an INVITE holds.
pub const INVITE_CLAIM_TTL_SECS: u64 = 30;

/// Seconds for which the claim of a REGISTER holds.
pub const REGISTER_CLAIM_TTL_SECS: u64 = 20;

/// The key under which the INVITE with `call_id` is claimed.
pub open spec fn invite_key(call_id: Seq<char>) -> Seq<char> {
    "processed_invites:"@ + call_id
}

/// The key under which the REGISTER with `call_id` is claimed.
pub open spec fn register_key(call_id: Seq<char>) -> Seq<char> {
    "pending_reg:"@ + call_id
}

/// Writes the key under which the INVITE with `call_id` is claimed.
pub fn invite_claim_key(call_id: &str) -> (r: String)
    ensures
        r@ == invite_key(call_id@),
{
    let mut out: Vec<char> = Vec::new();
    push_str(&mut out, "processed_invites:");
    push_str(&mut out, call_id);
    assert(out@ == invite_key(call_id@)) by {
        assert(Seq::<char>::empty() + "processed_invites:"@ == "processed_invites:"@);
    }
    from_chars(&out)
}

/// Writes the key under which the REGISTER with `call_id` is claimed.
pub fn register_claim_key(call_id: &str) -> (r: String)
    ensures
        r@ == register_key(call_id@),
{
    let mut out: Vec<char> = Vec::new();
    push_str(&mut out, "pending_reg:");
    push_str(&mut out, call_id);
    assert(out@ == register_key(call_id@)) by {
        assert(Seq::<char>::empty() + "pending_reg:"@ == "pending_reg:"@);
    }
    from_chars(&out)
}

/// The keys of INVITE and of REGISTER never meet: a claim made for one
/// method says nothing about the other, whatever the Call-IDs are.
pub proof fn claim_namespaces_are_disjoint(invite_call_id: Seq<char>, register_call_id: Seq<char>)
    ensures
        invite_key(invite_call_id) != register_key(register_call_id),
{
    reveal_strlit("processed_invites:");
    reveal_strlit("pending_reg:");
    assert(invite_key(invite_call_id)[1] == 'r');
    assert(register_key(register_call_id)[1] == 'e');
}

/// Whether `key` is held in `table` when the clock reads `now_ms`.
pub open spec fn is_held(table: Map<Seq<char>, u64>, key: Seq<char>, now_ms: u64) -> bool {
    table.contains_key(key) && now_ms < table[key]
}

/// When a claim made at `now_ms` for `ttl_ms` milliseconds ends.
pub open spec fn claim_end(now_ms: u64, ttl_ms: u64) -> u64 {
    if now_ms + ttl_ms > u64::MAX {
        u64::MAX
    } else {
        (now_ms + ttl_ms) as u64
    }
}

/// The table after a claim of `key` at `now_ms`: a held key leaves it as it
/// is, a free key is entered until its claim ends.
pub open spec fn after_claim(
    table: Map<Seq<char>, u64>,
    key: Seq<char>,
    now_ms: u64,
    ttl_ms: u64,
) -> Map<Seq<char>, u64> {
    if is_held(table, key, now_ms) {
        table
    } else {
        table.insert(key, claim_end(now_ms, ttl_ms))
    }
}

/// What a run of claims of `key`, made one after the other at `times`,
/// returns.
pub open spec fn claim_results(
    table: Map<Seq<char>, u64>,
    key: Seq<char>,
    times: Seq<u64>,
    ttl_ms: u64,
) -> Seq<bool>
    decreases times.len(),
{
    if times.len() == 0 {
        Seq::empty()
    } else {
        seq![!is_held(table, key, times[0])] + claim_results(
            after_claim(table, key, times[0], ttl_ms),
            key,
            times.skip(1),
            ttl_ms,
        )
    }
}

/// Claims held in memory, each until its end on a monotonic clock that
/// counts milliseconds.
#[derive(Debug)]
pub struct ClaimTable {
    ends: StringMap<u64>,
}

impl View for ClaimTable {
    type V = Map<Seq<char>, u64>;

    closed spec fn view(&self) -> Map<Seq<char>, u64> {
        self.ends@
    }
}

impl ClaimTable {
    /// A table in which no key is held.
    pub fn new() -> (r: Self)
        ensures
            r@ == Map::<Seq<char>, u64>::empty(),
    {
        ClaimTable { ends: StringMap::new() }
    }

    /// Claims `key` at `now_ms` for `ttl_ms` milliseconds. Returns `true`
    /// where the key was free, and the caller goes on, and `false` where it
    /// was held, and the caller drops the request.
    pub fn try_claim(&mut self, key: &str, now_ms: u64, ttl_ms: u64) -> (first: bool)
        ensures
            first == !is_held(old(self)@, key@, now_ms),
            final(self)@ == after_claim(old(self)@, key@, now_ms, ttl_ms),
    {
        let held = match self.ends.get(key) {
            Some(end) => now_ms < *end,
            None => false,
        };
        if held {
            false
        } else {
            let end = if ttl_ms > u64::MAX - now_ms {
                u64::MAX
            } else {
                now_ms + ttl_ms
            };
            self.ends.insert(String::from_str(key), end);
            true
        }
    }
}

/// Of the claims of one key that arrive while the first of them holds,
/// exactly the first returns `true`: whatever the order in which the
/// attempts are served, the one served first wins and all others fail.
pub proof fn only_first_claim_succeeds(
    table: Map<Seq<char>, u64>,
    key: Seq<char>,
    times: Seq<u64>,
    ttl_ms: u64,
)
    requires
        times.len() > 0,
        !is_held(table, key, times[0]),
        forall|i: int| 0 < i < times.len() ==> #[trigger] times[i] < claim_end(times[0], ttl_ms),
    ensures
        claim_results(table, key, times, ttl_ms).len() == times.len(),
        claim_results(table, key, times, ttl_ms)[0],
        forall|i: int|
            0 < i < times.len() ==> !#[trigger] claim_results(table, key, times, ttl_ms)[i],
{
    let held = after_claim(table, key, times[0], ttl_ms);
    assert forall|i: int| 0 <= i < times.skip(1).len() implies #[trigger] times.skip(1)[i]
        < claim_end(times[0], ttl_ms) by {
        assert(times.skip(1)[i] == times[i + 1]);
    }
    lemma_held_claims_fail(held, key, times.skip(1), ttl_ms, claim_end(times[0], ttl_ms));
    let rest = claim_results(held, key, times.skip(1), ttl_ms);
    assert forall|i: int| 0 < i < times.len() implies !#[trigger] claim_results(
        table,
        key,
        times,
        ttl_ms,
    )[i] by {
        assert(claim_results(table, key, times, ttl_ms)[i] == rest[i - 1]);
    }
}

proof fn lemma_held_claims_fail(
    table: Map<Seq<char>, u64>,
    key: Seq<char>,
    times: Seq<u64>,
    ttl_ms: u64,
    end: u64,
)
    requires
        table.contains_key(key),
        table[key] == end,
        forall|i: int| 0 <= i < times.len() ==> #[trigger] times[i] < end,
    ensures
        claim_results(table, key, times, ttl_ms).len() == times.len(),
        forall|i: int|
            0 <= i < times.len() ==> !#[trigger] claim_results(table, key, times, ttl_ms)[i],
    decreases times.len(),
{
    if times.len() > 0 {
        assert(is_held(table, key, times[0]));
        let rest = times.skip(1);
        assert forall|i: int| 0 <= i < rest.len() implies #[trigger] rest[i] < end by {
            assert(rest[i] == times[i + 1]);
        }
        lemma_held_claims_fail(table, key, rest, ttl_ms, end);
        let tail = claim_results(table, key, rest, ttl_ms);
        assert forall|i: int| 0 <= i < times.len() implies !#[trigger] claim_results(
            table,
            key,
            times,
            ttl_ms,
        )[i] by {
            if i > 0 {
                assert(claim_results(table, key, times, ttl_ms)[i] == tail[i - 1]);
            }
        }
    }
}

} // verus!
