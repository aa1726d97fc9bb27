//! Bounded memory of the requests already committed in one app-server
//! generation.

use vstd::prelude::*;

use crate::text::same_text;

verus! {

/// How many committed request keys are remembered at most.
pub const MAX_COMMITTED_REQUESTS: usize = 512;

/// The abstract cache: its generation and its keys, oldest first.
pub struct SentCacheView {
    pub generation: Option<u64>,
    pub keys: Seq<Seq<char>>,
}

/// The cache as it is after switching to `generation`: a different
/// generation starts empty.
pub open spec fn select_generation(c: SentCacheView, generation: u64) -> SentCacheView {
    if c.generation != Some(generation) {
        SentCacheView { generation: Some(generation), keys: seq![] }
    } else {
        c
    }
}

/// The cache after remembering `key` in `generation`: the key is appended
/// when new, and only the newest keys up to the limit are kept.
pub open spec fn remembered(c: SentCacheView, generation: u64, key: Seq<char>) -> SentCacheView {
    let s = select_generation(c, generation);
    let keys = if s.keys.contains(key) { s.keys } else { s.keys.push(key) };
    let keep = if keys.len() > MAX_COMMITTED_REQUESTS {
        keys.subrange(keys.len() - MAX_COMMITTED_REQUESTS, keys.len() as int)
    } else {
        keys
    };
    SentCacheView { generation: s.generation, keys: keep }
}

/// Keys of requests whose delivery was committed, for one generation.
#[derive(Debug)]
pub struct SentRequestCache {
    generation: Option<u64>,
    order: Vec<String>,
}

impl View for SentRequestCache {
    type V = SentCacheView;

    closed spec fn view(&self) -> SentCacheView {
        SentCacheView { generation: self.generation, keys: self.order@.map_values(|s: String| s@) }
    }
}

impl SentRequestCache {
    /// No key occurs twice.
    pub closed spec fn wf(&self) -> bool {
        self@.keys.no_duplicates() && self@.keys.len() <= MAX_COMMITTED_REQUESTS
    }

    /// A well-formed cache holds each key once and at most
    /// `MAX_COMMITTED_REQUESTS` keys.
    pub proof fn lemma_wf_bounded(&self)
        requires
            self.wf(),
        ensures
            self@.keys.no_duplicates(),
            self@.keys.len() <= MAX_COMMITTED_REQUESTS,
    {
    }

    /// An empty cache bound to no generation.
    pub fn new() -> (r: Self)
        ensures
            r.wf(),
            r@ == (SentCacheView { generation: None, keys: seq![] }),
    {
        let r = SentRequestCache { generation: None, order: Vec::new() };
        assert(r@.keys =~= Seq::<Seq<char>>::empty());
        r
    }

    fn select_generation(&mut self, generation: u64)
        requires
            old(self).wf(),
        ensures
            final(self).wf(),
            final(self)@ == select_generation(old(self)@, generation),
    {
        if self.generation != Some(generation) {
            self.generation = Some(generation);
            self.order = Vec::new();
            assert(self@.keys =~= Seq::<Seq<char>>::empty());
        }
    }

    fn position(&self, key: &str) -> (r: Option<usize>)
        ensures
            match r {
                Some(i) => i < self@.keys.len() && self@.keys[i as int] == key@,
                None => !self@.keys.contains(key@),
            },
    {
        let mut i: usize = 0;
        while i < self.order.len()
            invariant
                i <= self.order.len(),
                forall|j: int| 0 <= j < i ==> self@.keys[j] != key@,
            decreases self.order.len() - i,
        {
            if same_text(self.order[i].as_str(), key) {
                return Some(i);
            }
            i = i + 1;
        }
        None
    }

    /// Whether `key` was committed in `generation`; switching to a new
    /// generation forgets every key.
    pub fn contains(&mut self, generation: u64, key: &str) -> (r: bool)
        requires
            old(self).wf(),
        ensures
            final(self).wf(),
            final(self)@ == select_generation(old(self)@, generation),
            r == final(self)@.keys.contains(key@),
    {
        self.select_generation(generation);
        self.position(key).is_some()
    }

    /// Remembers that `key` was committed in `generation`, evicting the
    /// oldest keys beyond the limit.
    pub fn remember(&mut self, generation: u64, key: String)
        requires
            old(self).wf(),
        ensures
            final(self).wf(),
            final(self)@ == remembered(old(self)@, generation, key@),
    {
        self.select_generation(generation);
        let ghost s = self@;
        if self.position(key.as_str()).is_none() {
            self.order.push(key);
            assert(self@.keys =~= s.keys.push(key@));
            proof {
                assert forall|i: int, j: int| 0 <= i < j < self@.keys.len() implies self@.keys[i]
                    != self@.keys[j] by {
                    if j == self@.keys.len() - 1 {
                        assert(s.keys.contains(self@.keys[i]) || i >= s.keys.len());
                    }
                }
            }
        }
        let ghost keys = self@.keys;
        let excess: usize = if self.order.len() > MAX_COMMITTED_REQUESTS {
            self.order.len() - MAX_COMMITTED_REQUESTS
        } else {
            0
        };
        let mut kept: Vec<String> = Vec::new();
        let mut i: usize = excess;
        while i < self.order.len()
            invariant
                excess <= i <= self.order.len(),
                keys == self.order@.map_values(|s: String| s@),
                kept@.map_values(|s: String| s@) == keys.subrange(excess as int, i as int),
            decreases self.order.len() - i,
        {
            let ghost prev = kept@;
            let c = self.order[i].clone();
            assert(c@ == keys[i as int]);
            kept.push(c);
            assert(kept@.map_values(|s: String| s@) =~= prev.map_values(|s: String| s@).push(c@));
            i = i + 1;
            assert(kept@.map_values(|s: String| s@) =~= keys.subrange(excess as int, i as int));
        }
        self.order = kept;
        assert(self@.keys =~= keys.subrange(excess as int, keys.len() as int));
        proof {
            if excess == 0 {
                assert(keys.subrange(0, keys.len() as int) =~= keys);
            }
            assert forall|i: int, j: int| 0 <= i < j < self@.keys.len() implies self@.keys[i]
                != self@.keys[j] by {
                assert(self@.keys[i] == keys[excess + i]);
                assert(self@.keys[j] == keys[excess + j]);
            }
        }
    }

    /// Number of remembered keys.
    pub fn len(&self) -> (r: usize)
        ensures
            r == self@.keys.len(),
    {
        self.order.len()
    }

    /// Whether no key is remembered.
    pub fn is_empty(&self) -> (r: bool)
        ensures
            r == (self@.keys.len() == 0),
    {
        self.order.len() == 0
    }
}

impl Default for SentRequestCache {
    fn default() -> (r: Self)
        ensures
            r.wf(),
            r@ == (SentCacheView { generation: None, keys: seq![] }),
    {
        Self::new()
    }
}

/// A key remembered in a generation is then found in that generation.
pub proof fn law_remembered_key_is_found(c: SentCacheView, generation: u64, key: Seq<char>)
    requires
        c.keys.len() <= MAX_COMMITTED_REQUESTS,
    ensures
        select_generation(remembered(c, generation, key), generation).keys.contains(key),
{
    let s = select_generation(c, generation);
    let keys = if s.keys.contains(key) { s.keys } else { s.keys.push(key) };
    let r = remembered(c, generation, key);
    if s.keys.contains(key) {
        assert(r.keys == keys);
    } else {
        assert(keys[keys.len() - 1] == key);
        if keys.len() > MAX_COMMITTED_REQUESTS {
            assert(r.keys[MAX_COMMITTED_REQUESTS - 1] == key);
        } else {
            assert(r.keys[keys.len() - 1] == key);
        }
    }
}

/// Remembering in a new generation forgets every key of the old one.
pub proof fn law_new_generation_forgets(c: SentCacheView, generation: u64, key: Seq<char>, old_key: Seq<char>)
    requires
        c.generation != Some(generation),
        old_key != key,
    ensures
        !remembered(c, generation, key).keys.contains(old_key),
        remembered(c, generation, key).keys == seq![key],
{
    assert(remembered(c, generation, key).keys =~= seq![key]);
}

/// The cache never holds more than the limit.
pub proof fn law_bounded(c: SentCacheView, generation: u64, key: Seq<char>)
    requires
        c.keys.len() <= MAX_COMMITTED_REQUESTS,
    ensures
        remembered(c, generation, key).keys.len() <= MAX_COMMITTED_REQUESTS,
{
}

/// In every cache that the public operations produce, a key just remembered
/// in a generation is found there, the cache stays within its limit, and
/// remembering a key it already holds for that generation changes nothing.
pub proof fn law_cache_finds_remembered(c: &SentRequestCache, generation: u64, key: Seq<char>)
    requires
        c.wf(),
    ensures
        select_generation(remembered(c@, generation, key), generation).keys.contains(key),
        remembered(c@, generation, key).keys.len() <= MAX_COMMITTED_REQUESTS,
        c@.generation == Some(generation) && c@.keys.contains(key) ==> remembered(c@, generation, key) == c@,
{
    c.lemma_wf_bounded();
    law_remembered_key_is_found(c@, generation, key);
    law_bounded(c@, generation, key);
}

} // verus!
