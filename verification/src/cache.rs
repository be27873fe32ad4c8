//! Freshness-aware response cache: a key-addressed store of prior
//! verdicts with a content-derived time-to-live.
//!
//! Entries expire passively: a lookup compares the entry's age against
//! its TTL and treats stale entries as misses; `cleanup` evicts all
//! expired entries eagerly. The caller supplies the clock reading for
//! every operation that needs one.

use vstd::prelude::*;

use crate::analysis::{AnalyzeRequest, AnalyzeRequestV, AnalyzeResponse, AnalyzeResponseV};
use crate::textfmt::{
    bool_to_string, format_cached_marker, spec_bool_text, spec_cached_marker, spec_dec_digits,
    u64_to_string,
};

verus! {

/// One cached response with its capture time and time-to-live.
pub struct CacheEntry {
    pub response: AnalyzeResponse,
    pub cached_at: u64,
    pub ttl_seconds: u64,
}

/// Ghost view of [`CacheEntry`].
pub struct CacheEntryV {
    pub response: AnalyzeResponseV,
    pub cached_at: u64,
    pub ttl_seconds: u64,
}

impl View for CacheEntry {
    type V = CacheEntryV;

    open spec fn view(&self) -> CacheEntryV {
        (CacheEntryV {
            response: self.response@,
            cached_at: self.cached_at,
            ttl_seconds: self.ttl_seconds,
        })
    }
}

impl Clone for CacheEntry {
    fn clone(&self) -> (r: Self)
        ensures
            r@ == self@,
    {
        CacheEntry {
            response: self.response.clone(),
            cached_at: self.cached_at,
            ttl_seconds: self.ttl_seconds,
        }
    }
}

/// One key-entry pair of the store.
struct CacheSlot {
    key: String,
    entry: CacheEntry,
}

/// Age of an entry captured at `cached_at`, seen at `now`; clock
/// readings from before the capture count as age zero.
pub open spec fn spec_entry_age(now: int, cached_at: int) -> int {
    if now >= cached_at {
        now - cached_at
    } else {
        0
    }
}

/// Whether an entry is still fresh at `now`.
pub open spec fn spec_entry_fresh(e: CacheEntryV, now: int) -> bool {
    spec_entry_age(now, e.cached_at as int) < e.ttl_seconds as int
}

/// A response served from the cache: the stored response with its
/// freshness marker updated to indicate cache provenance.
pub open spec fn spec_served_response(e: CacheEntryV, r: AnalyzeResponseV) -> bool {
    r == (AnalyzeResponseV { requested_at: spec_cached_marker(e.cached_at as int), ..e.response })
}

spec fn entries_map(s: Seq<CacheSlot>) -> Map<Seq<char>, CacheEntryV>
    decreases s.len(),
{
    if s.len() == 0 {
        Map::empty()
    } else {
        entries_map(s.drop_last()).insert(s.last().key@, s.last().entry@)
    }
}

spec fn keys_distinct(s: Seq<CacheSlot>) -> bool {
    forall|i: int, j: int| 0 <= i < j < s.len() ==> s[i].key@ != s[j].key@
}

spec fn spec_has_key(s: Seq<CacheSlot>, k: Seq<char>) -> bool {
    exists|t: int| 0 <= t < s.len() && s[t].key@ == k
}

proof fn lemma_entries_map_index(s: Seq<CacheSlot>, i: int)
    requires
        keys_distinct(s),
        0 <= i < s.len(),
    ensures
        entries_map(s).contains_key(s[i].key@),
        entries_map(s)[s[i].key@] == s[i].entry@,
    decreases s.len(),
{
    if i < s.len() - 1 {
        lemma_entries_map_index(s.drop_last(), i);
    }
}

proof fn lemma_entries_map_absent(s: Seq<CacheSlot>, k: Seq<char>)
    requires
        forall|j: int| 0 <= j < s.len() ==> s[j].key@ != k,
    ensures
        !entries_map(s).contains_key(k),
    decreases s.len(),
{
    if s.len() > 0 {
        lemma_entries_map_absent(s.drop_last(), k);
    }
}

proof fn lemma_entries_map_dom_len(s: Seq<CacheSlot>)
    requires
        keys_distinct(s),
    ensures
        entries_map(s).dom().finite(),
        entries_map(s).dom().len() == s.len(),
    decreases s.len(),
{
    if s.len() > 0 {
        lemma_entries_map_dom_len(s.drop_last());
        lemma_entries_map_absent(s.drop_last(), s.last().key@);
    }
}

proof fn lemma_entries_map_remove(s: Seq<CacheSlot>, i: int)
    requires
        keys_distinct(s),
        0 <= i < s.len(),
    ensures
        keys_distinct(s.remove(i)),
        entries_map(s.remove(i)) =~= entries_map(s).remove(s[i].key@),
    decreases s.len(),
{
    assert(keys_distinct(s.remove(i)));
    if i == s.len() - 1 {
        assert(s.remove(i) =~= s.drop_last());
        lemma_entries_map_absent(s.drop_last(), s.last().key@);
        assert(entries_map(s.drop_last()) =~= entries_map(s.drop_last()).insert(
            s.last().key@,
            s.last().entry@,
        ).remove(s.last().key@));
    } else {
        lemma_entries_map_remove(s.drop_last(), i);
        assert(s.remove(i).drop_last() =~= s.drop_last().remove(i));
        assert(s.remove(i).last() == s.last());
        assert(s[i].key@ != s.last().key@);
        assert(entries_map(s.remove(i)) =~= entries_map(s).remove(s[i].key@));
    }
}

/// Key-addressed store of prior responses.
pub struct SimpleCache {
    entries: Vec<CacheSlot>,
}

impl View for SimpleCache {
    type V = Map<Seq<char>, CacheEntryV>;

    closed spec fn view(&self) -> Map<Seq<char>, CacheEntryV> {
        entries_map(self.entries@)
    }
}

impl SimpleCache {
    /// The store never holds two entries for one key.
    pub closed spec fn wf(&self) -> bool {
        keys_distinct(self.entries@)
    }

    /// An empty cache.
    pub fn new() -> (c: Self)
        ensures
            c.wf(),
            c@ == Map::<Seq<char>, CacheEntryV>::empty(),
    {
        let c = SimpleCache { entries: Vec::new() };
        proof {
            assert(c@ =~= Map::<Seq<char>, CacheEntryV>::empty());
        }
        c
    }

    /// Look the key up at time `now`: a copy of the stored response,
    /// marked as served from the cache, if the entry is still fresh;
    /// a miss otherwise.
    pub fn get(&self, key: &String, now: u64) -> (r: Option<AnalyzeResponse>)
        requires
            self.wf(),
        ensures
            self@.contains_key(key@) && spec_entry_fresh(self@[key@], now as int) ==> (
            match r {
                Some(resp) => spec_served_response(self@[key@], resp@),
                None => false,
            }),
            !(self@.contains_key(key@) && spec_entry_fresh(self@[key@], now as int)) ==> r
                is None,
    {
        let mut i: usize = 0;
        while i < self.entries.len()
            invariant
                0 <= i <= self.entries@.len(),
                self.wf(),
                forall|j: int| 0 <= j < i as int ==> self.entries@[j].key@ != key@,
            decreases self.entries@.len() - i,
        {
            if self.entries[i].key == *key {
                proof {
                    lemma_entries_map_index(self.entries@, i as int);
                }
                let entry = &self.entries[i].entry;
                let age = if now >= entry.cached_at {
                    now - entry.cached_at
                } else {
                    0
                };
                if age < entry.ttl_seconds {
                    let mut response = entry.response.clone();
                    response.requested_at = format_cached_marker(entry.cached_at);
                    return Some(response);
                } else {
                    return None;
                }
            }
            i = i + 1;
        }
        proof {
            lemma_entries_map_absent(self.entries@, key@);
        }
        None
    }

    /// Store the response under the key, overwriting any prior entry.
    pub fn set(&mut self, key: String, response: AnalyzeResponse, ttl_seconds: u64, now: u64)
        requires
            old(self).wf(),
        ensures
            final(self).wf(),
            final(self)@ == old(self)@.insert(
                key@,
                (CacheEntryV { response: response@, cached_at: now, ttl_seconds }),
            ),
    {
        let ghost m0 = self@;
        let _ = self.remove(&key);
        let ghost prev = self.entries@;
        proof {
            assert forall|j: int| 0 <= j < prev.len() implies #[trigger] prev[j].key@ != key@ by {
                lemma_entries_map_index(prev, j);
            }
        }
        self.entries.push(
            CacheSlot { key, entry: CacheEntry { response, cached_at: now, ttl_seconds } },
        );
        proof {
            assert(self.entries@.drop_last() =~= prev);
            assert(keys_distinct(self.entries@));
            assert(self@ =~= m0.insert(
                key@,
                (CacheEntryV { response: response@, cached_at: now, ttl_seconds }),
            ));
        }
    }

    /// Drop every entry.
    pub fn clear(&mut self)
        ensures
            final(self).wf(),
            final(self)@ == Map::<Seq<char>, CacheEntryV>::empty(),
    {
        self.entries = Vec::new();
        proof {
            assert(self@ =~= Map::<Seq<char>, CacheEntryV>::empty());
        }
    }

    /// Remove the key's entry; reports whether one was there.
    pub fn remove(&mut self, key: &String) -> (removed: bool)
        requires
            old(self).wf(),
        ensures
            final(self).wf(),
            final(self)@ == old(self)@.remove(key@),
            removed == old(self)@.contains_key(key@),
    {
        let ghost s0 = self.entries@;
        let ghost m0 = self@;
        let mut i: usize = 0;
        while i < self.entries.len()
            invariant
                0 <= i <= self.entries@.len(),
                self.wf(),
                self.entries@ == s0,
                s0 == old(self).entries@,
                m0 == old(self)@,
                m0 == entries_map(s0),
                forall|j: int| 0 <= j < i as int ==> s0[j].key@ != key@,
            decreases self.entries@.len() - i,
        {
            if self.entries[i].key == *key {
                proof {
                    lemma_entries_map_index(s0, i as int);
                    lemma_entries_map_remove(s0, i as int);
                }
                self.entries.remove(i);
                proof {
                    assert(self@ =~= m0.remove(key@));
                }
                return true;
            }
            i = i + 1;
        }
        proof {
            lemma_entries_map_absent(s0, key@);
            assert(self@ =~= m0.remove(key@));
        }
        false
    }

    /// Number of stored entries.
    pub fn size(&self) -> (n: usize)
        requires
            self.wf(),
        ensures
            n == self@.dom().len(),
    {
        proof {
            lemma_entries_map_dom_len(self.entries@);
        }
        self.entries.len()
    }

    /// Evict every expired entry; fresh entries are kept unchanged.
    pub fn cleanup(&mut self, now: u64)
        requires
            old(self).wf(),
        ensures
            final(self).wf(),
            forall|k: Seq<char>|
                final(self)@.contains_key(k) <==> (old(self)@.contains_key(k)
                    && spec_entry_fresh(#[trigger] old(self)@[k], now as int)),
            forall|k: Seq<char>|
                final(self)@.contains_key(k) ==> final(self)@[k] == #[trigger] old(self)@[k],
    {
        let ghost s0 = self.entries@;
        let mut kept: Vec<CacheSlot> = Vec::new();
        let mut i: usize = 0;
        proof {
            assert(s0.take(0) =~= Seq::<CacheSlot>::empty());
        }
        while i < self.entries.len()
            invariant
                0 <= i <= self.entries@.len(),
                self.wf(),
                self.entries@ == s0,
                keys_distinct(kept@),
                forall|j: int|
                    0 <= j < kept@.len() ==> spec_has_key(
                        s0.take(i as int),
                        #[trigger] kept@[j].key@,
                    ),
                entries_map(kept@) == spec_cleanup_map(s0.take(i as int), now as int),
            decreases self.entries@.len() - i,
        {
            let slot = &self.entries[i];
            let entry = &slot.entry;
            let age = if now >= entry.cached_at {
                now - entry.cached_at
            } else {
                0
            };
            proof {
                assert(s0.take(i as int + 1).drop_last() =~= s0.take(i as int));
                assert(s0.take(i as int + 1).last() == s0[i as int]);
            }
            if age < entry.ttl_seconds {
                let ghost kept0 = kept@;
                kept.push(CacheSlot { key: slot.key.clone(), entry: slot.entry.clone() });
                proof {
                    assert(kept@.drop_last() =~= kept0);
                    assert forall|j: int| 0 <= j < kept0.len() implies #[trigger] kept0[j].key@
                        != s0[i as int].key@ by {
                        assert(spec_has_key(s0.take(i as int), kept0[j].key@));
                        let t = choose|t: int|
                            0 <= t < s0.take(i as int).len() && s0.take(i as int)[t].key@
                                == kept0[j].key@;
                        assert(s0[t].key@ == kept0[j].key@);
                    }
                    assert(keys_distinct(kept@));
                    assert forall|j: int| 0 <= j < kept@.len() implies spec_has_key(
                        s0.take(i as int + 1),
                        #[trigger] kept@[j].key@,
                    ) by {
                        if j < kept0.len() {
                            let t = choose|t: int|
                                0 <= t < s0.take(i as int).len() && s0.take(i as int)[t].key@
                                    == kept0[j].key@;
                            assert(s0.take(i as int + 1)[t].key@ == kept@[j].key@);
                        } else {
                            assert(s0.take(i as int + 1)[i as int].key@ == kept@[j].key@);
                        }
                    }
                    assert(entries_map(kept@) =~= spec_cleanup_map(
                        s0.take(i as int + 1),
                        now as int,
                    ));
                }
            } else {
                proof {
                    assert forall|j: int| 0 <= j < kept@.len() implies spec_has_key(
                        s0.take(i as int + 1),
                        #[trigger] kept@[j].key@,
                    ) by {
                        let t = choose|t: int|
                            0 <= t < s0.take(i as int).len() && s0.take(i as int)[t].key@
                                == kept@[j].key@;
                        assert(s0.take(i as int + 1)[t].key@ == kept@[j].key@);
                    }
                }
            }
            i = i + 1;
        }
        proof {
            assert(s0.take(s0.len() as int) =~= s0);
        }
        self.entries = kept;
        proof {
            lemma_cleanup_map_chars(s0, now as int);
        }
    }
}

impl Default for SimpleCache {
    /// An empty cache.
    fn default() -> (c: Self)
        ensures
            c.wf(),
            c@ == Map::<Seq<char>, CacheEntryV>::empty(),
    {
        SimpleCache::new()
    }
}

/// The surviving entries of a cleanup pass at time `now`.
spec fn spec_cleanup_map(s: Seq<CacheSlot>, now: int) -> Map<Seq<char>, CacheEntryV>
    decreases s.len(),
{
    if s.len() == 0 {
        Map::empty()
    } else {
        let m = spec_cleanup_map(s.drop_last(), now);
        if spec_entry_fresh(s.last().entry@, now) {
            m.insert(s.last().key@, s.last().entry@)
        } else {
            m
        }
    }
}

proof fn lemma_cleanup_map_chars(s: Seq<CacheSlot>, now: int)
    requires
        keys_distinct(s),
    ensures
        forall|k: Seq<char>|
            #[trigger] spec_cleanup_map(s, now).contains_key(k) <==> (entries_map(
                s,
            ).contains_key(k) && spec_entry_fresh(entries_map(s)[k], now)),
        forall|k: Seq<char>|
            #[trigger] spec_cleanup_map(s, now).contains_key(k) ==> spec_cleanup_map(s, now)[k]
                == entries_map(s)[k],
    decreases s.len(),
{
    if s.len() > 0 {
        let d = s.drop_last();
        let lk = s.last().key@;
        let le = s.last().entry@;
        lemma_cleanup_map_chars(d, now);
        lemma_entries_map_absent(d, lk);
        assert(!spec_cleanup_map(d, now).contains_key(lk));
        assert forall|k: Seq<char>|
            #[trigger] spec_cleanup_map(s, now).contains_key(k) <==> (entries_map(
                s,
            ).contains_key(k) && spec_entry_fresh(entries_map(s)[k], now)) by {
            if k == lk {
                assert(entries_map(s)[lk] == le);
            } else {
                assert(entries_map(s).contains_key(k) <==> entries_map(d).contains_key(k));
            }
        }
        assert forall|k: Seq<char>|
            #[trigger] spec_cleanup_map(s, now).contains_key(k) implies spec_cleanup_map(s, now)[k]
            == entries_map(s)[k] by {
            if k == lk {
                assert(entries_map(s)[lk] == le);
            } else {
                assert(entries_map(s)[k] == entries_map(d)[k]);
            }
        }
    }
}

// ---------------------------------------------------------------------
// Cache policy
// ---------------------------------------------------------------------

/// The cache key of one request: chain, address, and the two options
/// that shape the response.
pub open spec fn spec_cache_key(rq: AnalyzeRequestV) -> Seq<char> {
    rq.chain + ":"@ + rq.address + ":"@ + spec_bool_text(rq.options.include_holders) + ":"@
        + spec_dec_digits(rq.options.max_holders as int)
}

/// Render the cache key of a request.
pub fn make_cache_key(request: &AnalyzeRequest) -> (s: String)
    ensures
        s@ == spec_cache_key(request@),
{
    let s = request.chain.clone().concat(":").concat(request.address.as_str()).concat(":").concat(
        bool_to_string(request.options.include_holders).as_str(),
    ).concat(":").concat(u64_to_string(request.options.max_holders as u64).as_str());
    proof {
        assert(s@ =~= spec_cache_key(request@));
    }
    s
}

/// The content-derived TTL: minutes for very new tokens, an hour for
/// older ones, an intermediate half hour when the age is unknown or
/// token metadata is absent.
pub open spec fn spec_ttl_for_response(r: AnalyzeResponseV) -> int {
    match r.token {
        Some(t) => {
            if t.age_band == "LessThan24h"@ {
                600
            } else if t.age_band == "Day1To7"@ {
                3600
            } else if t.age_band == "GreaterThan7d"@ {
                3600
            } else if t.age_band == "Unknown"@ {
                1800
            } else {
                3600
            }
        },
        None => 1800,
    }
}

/// Determine the TTL for a response from the age band in its token
/// metadata.
pub fn ttl_for_response(response: &AnalyzeResponse) -> (ttl: u64)
    ensures
        ttl as int == spec_ttl_for_response(response@),
{
    match &response.token {
        Some(token) => {
            if token.age_band == String::from_str("LessThan24h") {
                600
            } else if token.age_band == String::from_str("Day1To7") {
                3600
            } else if token.age_band == String::from_str("GreaterThan7d") {
                3600
            } else if token.age_band == String::from_str("Unknown") {
                1800
            } else {
                3600
            }
        },
        None => 1800,
    }
}

// ---------------------------------------------------------------------
// Round trip
// ---------------------------------------------------------------------

/// Round trip: storing a response and looking it up before its TTL has
/// expired finds a fresh entry holding that very response — in
/// particular the same `analysis_id`. Together with the contract of
/// [`SimpleCache::get`], the retrieved copy differs only in its
/// freshness marker.
pub proof fn lemma_cache_round_trip(
    before: Map<Seq<char>, CacheEntryV>,
    key: Seq<char>,
    stored: AnalyzeResponseV,
    ttl_seconds: u64,
    now_set: u64,
    now_get: u64,
)
    requires
        spec_entry_age(now_get as int, now_set as int) < ttl_seconds as int,
    ensures
        ({
            let after = before.insert(
                key,
                (CacheEntryV { response: stored, cached_at: now_set, ttl_seconds }),
            );
            &&& after.contains_key(key)
            &&& spec_entry_fresh(after[key], now_get as int)
            &&& after[key].response == stored
            &&& after[key].response.analysis_id == stored.analysis_id
        }),
{
}

} // verus!
