//! The calls in progress.
use crate::config::SocketAddress;
use crate::strmap::{Headers, StringMap};
use vstd::prelude::*;

verus! {

/// Seconds between two sweeps of the registry.
pub const CLEANUP_INTERVAL_SECS: u64 = 60;

/// Milliseconds after which a call that was never ended is dropped from the
/// registry.
pub const ACTIVE_CALL_TTL_MS: u64 = 300000;

/// What the gateway keeps of a call from its INVITE to its end.
#[derive(Clone, Debug)]
pub struct ActiveCallInfo {
    pub remote_addr: SocketAddress,
    pub rtp_port: u32,
    pub trace_id: String,
    pub to_tag: String,
    /// Reading of the monotonic clock, in milliseconds, when the call was set up.
    pub created_at: u64,
    pub headers: Headers,
    pub via_headers: Vec<String>,
    pub call_id: String,
    pub from_header: String,
    pub to_header: String,
    pub contact_header: String,
    pub record_route_header: Option<String>,
    pub raw_body: String,
    /// Whether the event that announces the answer has been handed out.
    pub answered_event_published: bool,
}

impl ActiveCallInfo {
    /// Whether the call is younger than the time to live when the clock
    /// reads `now_ms`.
    pub open spec fn is_fresh(&self, now_ms: u64) -> bool {
        now_ms - self.created_at < ACTIVE_CALL_TTL_MS
    }

    /// Tells whether the call is younger than the time to live at `now_ms`.
    pub fn fresh(&self, now_ms: u64) -> (r: bool)
        ensures
            r == self.is_fresh(now_ms),
    {
        now_ms < self.created_at || now_ms - self.created_at < ACTIVE_CALL_TTL_MS
    }

    /// The same call with the answer marked as announced.
    pub open spec fn answered(self) -> ActiveCallInfo {
        ActiveCallInfo { answered_event_published: true, ..self }
    }
}

/// What is left of a registry after a sweep at `now_ms`: the calls that are
/// younger than the time to live, unchanged.
pub open spec fn swept(calls: Map<Seq<char>, ActiveCallInfo>, now_ms: u64) -> Map<
    Seq<char>,
    ActiveCallInfo,
> {
    Map::new(
        |k: Seq<char>| calls.contains_key(k) && calls[k].is_fresh(now_ms),
        |k: Seq<char>| calls[k],
    )
}

/// A sweep drops a call if and only if it is at least as old as the time to
/// live, whether or not its end was ever signalled; a younger call is never
/// dropped, and is left exactly as it was.
pub proof fn sweep_drops_exactly_the_stale(
    calls: Map<Seq<char>, ActiveCallInfo>,
    now_ms: u64,
    call_id: Seq<char>,
)
    requires
        calls.contains_key(call_id),
    ensures
        now_ms - calls[call_id].created_at >= ACTIVE_CALL_TTL_MS ==> !swept(
            calls,
            now_ms,
        ).contains_key(call_id),
        now_ms - calls[call_id].created_at < ACTIVE_CALL_TTL_MS ==> swept(
            calls,
            now_ms,
        ).contains_key(call_id) && swept(calls, now_ms)[call_id] == calls[call_id],
{
}

/// What marking the call `call_id` as answered does to a registry: the flag
/// of that call is raised; a registry without it stays as it is.
pub open spec fn marked(calls: Map<Seq<char>, ActiveCallInfo>, call_id: Seq<char>) -> Map<
    Seq<char>,
    ActiveCallInfo,
> {
    if calls.contains_key(call_id) {
        calls.insert(call_id, calls[call_id].answered())
    } else {
        calls
    }
}

/// The registry of active calls, by Call-ID. It is an owned value: whoever
/// shares it between tasks guards it with one lock.
#[derive(Debug)]
pub struct ActiveCalls {
    calls: StringMap<ActiveCallInfo>,
}

impl View for ActiveCalls {
    type V = Map<Seq<char>, ActiveCallInfo>;

    closed spec fn view(&self) -> Map<Seq<char>, ActiveCallInfo> {
        self.calls@
    }
}

impl ActiveCalls {
    /// A registry without calls.
    pub fn new() -> (r: Self)
        ensures
            r@ == Map::<Seq<char>, ActiveCallInfo>::empty(),
    {
        ActiveCalls { calls: StringMap::new() }
    }

    /// The number of calls.
    pub fn len(&self) -> (r: usize)
        ensures
            self@.dom().finite(),
            r == self@.len(),
    {
        self.calls.len()
    }

    /// Whether a call with this Call-ID is held.
    pub fn contains(&self, call_id: &str) -> (r: bool)
        ensures
            r == self@.contains_key(call_id@),
    {
        self.calls.contains_key(call_id)
    }

    /// Puts `info` under `call_id`, in place of a call held there.
    pub fn insert(&mut self, call_id: String, info: ActiveCallInfo)
        ensures
            final(self)@ == old(self)@.insert(call_id@, info),
    {
        self.calls.insert(call_id, info);
    }

    /// The call held under `call_id`.
    pub fn get(&self, call_id: &str) -> (r: Option<&ActiveCallInfo>)
        ensures
            match r {
                Some(info) => self@.contains_key(call_id@) && self@[call_id@] == *info,
                None => !self@.contains_key(call_id@),
            },
    {
        self.calls.get(call_id)
    }

    /// Takes the call held under `call_id` out of the registry.
    pub fn remove(&mut self, call_id: &str) -> (r: Option<ActiveCallInfo>)
        ensures
            final(self)@ == old(self)@.remove(call_id@),
            match r {
                Some(info) => old(self)@.contains_key(call_id@) && old(self)@[call_id@] == info,
                None => !old(self)@.contains_key(call_id@),
            },
    {
        self.calls.remove(call_id)
    }

    /// Raises the flag of the call `call_id` that says its answer has been
    /// announced, and tells whether this call raised it: `true` only where
    /// the call is held and the flag was down.
    pub fn mark_answered(&mut self, call_id: &str) -> (first: bool)
        ensures
            final(self)@ == marked(old(self)@, call_id@),
            first == (old(self)@.contains_key(call_id@) && !old(
                self,
            )@[call_id@].answered_event_published),
    {
        match self.calls.remove(call_id) {
            Some(info) => {
                let first = !info.answered_event_published;
                let raised = ActiveCallInfo {
                    remote_addr: info.remote_addr,
                    rtp_port: info.rtp_port,
                    trace_id: info.trace_id,
                    to_tag: info.to_tag,
                    created_at: info.created_at,
                    headers: info.headers,
                    via_headers: info.via_headers,
                    call_id: info.call_id,
                    from_header: info.from_header,
                    to_header: info.to_header,
                    contact_header: info.contact_header,
                    record_route_header: info.record_route_header,
                    raw_body: info.raw_body,
                    answered_event_published: true,
                };
                self.calls.insert(String::from_str(call_id), raised);
                assert(self@ =~= marked(old(self)@, call_id@));
                first
            },
            None => {
                assert(self@ =~= old(self)@);
                false
            },
        }
    }
}

/// Whether one of the first `n` of `keys` is `k`.
spec fn visited(keys: Seq<String>, n: int, k: Seq<char>) -> bool {
    exists|j: int| 0 <= j < n && #[trigger] keys[j]@ == k
}

/// One sweep of the registry when the clock reads `now_ms`: every call at
/// least as old as the time to live is dropped, every younger call stays as
/// it is. Returns how many calls were dropped.
pub fn cleanup_old_transactions(transactions: &mut ActiveCalls, now_ms: u64) -> (removed: usize)
    ensures
        final(transactions)@ == swept(old(transactions)@, now_ms),
        old(transactions)@.dom().finite(),
        final(transactions)@.dom().finite(),
        removed == old(transactions)@.len() - final(transactions)@.len(),
{
    let before = transactions.len();
    let keys = transactions.calls.keys();
    let mut i: usize = 0;
    while i < keys.len()
        invariant
            i <= keys.len(),
            forall|j: int| 0 <= j < keys.len() ==> old(transactions)@.contains_key(
                #[trigger] keys[j]@,
            ),
            forall|k: Seq<char>|
                old(transactions)@.contains_key(k) ==> exists|j: int|
                    0 <= j < keys.len() && #[trigger] keys[j]@ == k,
            forall|k: Seq<char>|
                #![trigger transactions@.contains_key(k)]
                #![trigger old(transactions)@.contains_key(k)]
                transactions@.contains_key(k) <==> old(transactions)@.contains_key(k) && (visited(
                    keys@,
                    i as int,
                    k,
                ) ==> old(transactions)@[k].is_fresh(now_ms)),
            forall|k: Seq<char>|
                #![trigger transactions@.contains_key(k)]
                transactions@.contains_key(k) ==> transactions@[k] == old(transactions)@[k],
        decreases keys.len() - i,
    {
        let key = &keys[i];
        let ghost prev = transactions@;
        let stale = match transactions.get(key.as_str()) {
            Some(info) => !info.fresh(now_ms),
            None => false,
        };
        if stale {
            transactions.remove(key.as_str());
        }
        proof {
            assert forall|k: Seq<char>|
                #![trigger transactions@.contains_key(k)]
                #![trigger old(transactions)@.contains_key(k)]
                transactions@.contains_key(k) <==> old(transactions)@.contains_key(k) && (visited(
                    keys@,
                    i + 1,
                    k,
                ) ==> old(transactions)@[k].is_fresh(now_ms)) by {
                if k == key@ {
                    assert(visited(keys@, i + 1, k)) by {
                        assert(keys@[i as int]@ == k);
                    }
                } else {
                    if visited(keys@, i + 1, k) {
                        let j = choose|j: int| 0 <= j < i + 1 && #[trigger] keys@[j]@ == k;
                        assert(j < i);
                        assert(visited(keys@, i as int, k));
                    }
                    if visited(keys@, i as int, k) {
                        let j = choose|j: int| 0 <= j < i && #[trigger] keys@[j]@ == k;
                        assert(visited(keys@, i + 1, k));
                    }
                }
            }
        }
        i += 1;
    }
    proof {
        assert forall|k: Seq<char>| old(transactions)@.contains_key(k) implies visited(
            keys@,
            keys.len() as int,
            k,
        ) by {
            let j = choose|j: int| 0 <= j < keys.len() && #[trigger] keys[j]@ == k;
            assert(keys@[j]@ == k);
        }
        let end = swept(old(transactions)@, now_ms);
        assert forall|k: Seq<char>| transactions@.contains_key(k) <==> end.contains_key(k) by {
            if old(transactions)@.contains_key(k) {
                assert(visited(keys@, keys.len() as int, k));
            }
        }
        assert forall|k: Seq<char>| transactions@.contains_key(k) implies transactions@[k]
            == end[k] by {}
        assert(transactions@ =~= end);
    }
    let after = transactions.len();
    proof {
        vstd::set_lib::lemma_len_subset(transactions@.dom(), old(transactions)@.dom());
    }
    before - after
}

} // verus!
