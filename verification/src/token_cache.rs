//! The second-tier cache: raw token string to previously validated claims
//! plus an absolute expiry.  A hit short-circuits the whole validation path.
//!
//! Entries are never swept: one persists until overwritten or the process
//! restarts, so memory grows with the number of distinct tokens seen.  That
//! is a known operational risk; a production deployment wants a bound (an
//! LRU or a periodic sweep) on top of this type.

use vstd::prelude::*;

use crate::claims::{Claims, ClaimsV};

verus! {

/// The mathematical value of one cache entry.
pub type CacheEntryV = (Seq<char>, ClaimsV, u64);

/// One cached validation: the exact token string it was made for, the
/// claims, and the absolute expiry (seconds since the Unix epoch) past which
/// the entry is stale and must be recomputed.
struct CacheEntry {
    token: String,
    claims: Claims,
    expires_at: u64,
}

impl DeepView for CacheEntry {
    type V = CacheEntryV;

    closed spec fn deep_view(&self) -> CacheEntryV {
        (self.token@, self.claims@, self.expires_at)
    }
}

/// The mapping that a sequence of entries denotes: entries are read left to
/// right, and a later entry for the same token overwrites an earlier one.
pub open spec fn token_map(s: Seq<CacheEntryV>) -> Map<Seq<char>, (ClaimsV, u64)>
    decreases s.len(),
{
    if s.len() == 0 {
        Map::empty()
    } else {
        token_map(s.drop_last()).insert(s.last().0, (s.last().1, s.last().2))
    }
}

/// Whether the entries of `s` are for pairwise distinct tokens.
pub open spec fn distinct_tokens(s: Seq<CacheEntryV>) -> bool {
    forall|i: int, j: int| 0 <= i < j < s.len() ==> s[i].0 != s[j].0
}

/// A token is in the denoted mapping exactly when some entry carries it.
proof fn lemma_token_map_contains(s: Seq<CacheEntryV>, token: Seq<char>)
    ensures
        token_map(s).contains_key(token) <==> exists|i: int|
            0 <= i < s.len() && #[trigger] s[i].0 == token,
    decreases s.len(),
{
    if s.len() > 0 {
        lemma_token_map_contains(s.drop_last(), token);
        if s.last().0 == token {
            assert(s[s.len() - 1].0 == token);
        } else {
            if token_map(s).contains_key(token) {
                let i = choose|i: int|
                    0 <= i < s.drop_last().len() && #[trigger] s.drop_last()[i].0 == token;
                assert(s[i].0 == token);
            }
            if exists|i: int| 0 <= i < s.len() && #[trigger] s[i].0 == token {
                let i = choose|i: int| 0 <= i < s.len() && #[trigger] s[i].0 == token;
                assert(s.drop_last()[i].0 == token);
            }
        }
    }
}

/// When no later entry repeats the token of `s[i]`, the denoted mapping
/// sends that token to `s[i]`'s claims and expiry.
proof fn lemma_token_map_value(s: Seq<CacheEntryV>, i: int)
    requires
        0 <= i < s.len(),
        forall|j: int| i < j < s.len() ==> s[j].0 != s[i].0,
    ensures
        token_map(s).contains_key(s[i].0),
        token_map(s)[s[i].0] == (s[i].1, s[i].2),
    decreases s.len(),
{
    if i < s.len() - 1 {
        assert(s.drop_last()[i] == s[i]);
        lemma_token_map_value(s.drop_last(), i);
    }
}

/// Overwriting the one entry for a token denotes the same mapping as
/// inserting the replacement.
proof fn lemma_token_map_update(s: Seq<CacheEntryV>, i: int, v: CacheEntryV)
    requires
        0 <= i < s.len(),
        s[i].0 == v.0,
        distinct_tokens(s),
    ensures
        token_map(s.update(i, v)) =~= token_map(s).insert(v.0, (v.1, v.2)),
    decreases s.len(),
{
    let t = s.update(i, v);
    if i == s.len() - 1 {
        assert(t.drop_last() =~= s.drop_last());
        assert(t.last() == v);
    } else {
        assert(t.drop_last() =~= s.drop_last().update(i, v));
        assert(s.drop_last()[i] == s[i]);
        lemma_token_map_update(s.drop_last(), i, v);
        assert(t.last() == s.last());
        assert(s.last().0 != v.0);
        assert(token_map(s.drop_last()).insert(v.0, (v.1, v.2)).insert(
            s.last().0,
            (s.last().1, s.last().2),
        ) =~= token_map(s.drop_last()).insert(s.last().0, (s.last().1, s.last().2)).insert(
            v.0,
            (v.1, v.2),
        ));
    }
}

/// What one token's entry is to a reader at time `now`: usable, expired and
/// awaiting recomputation, or absent.
#[derive(PartialEq, Eq, Structural)]
pub enum CacheState {
    /// An entry exists and its expiry is still in the future.
    Fresh,
    /// An entry exists but the clock has passed its expiry; the next read
    /// recomputes and overwrites it.
    StalePendingRecheck,
    /// No entry exists for the token.
    Absent,
}

/// The state of `token` in the cache mapping `m` at time `now`.
pub open spec fn cache_state(
    m: Map<Seq<char>, (ClaimsV, u64)>,
    token: Seq<char>,
    now: u64,
) -> CacheState {
    if !m.contains_key(token) {
        CacheState::Absent
    } else if now < m[token].1 {
        CacheState::Fresh
    } else {
        CacheState::StalePendingRecheck
    }
}

/// The token cache.  Distinct token strings are never coalesced: two tokens
/// decoding to the same claims occupy separate slots, keyed by the exact
/// token string.
pub struct TokenCache {
    entries: Vec<CacheEntry>,
}

impl View for TokenCache {
    type V = Map<Seq<char>, (ClaimsV, u64)>;

    closed spec fn view(&self) -> Map<Seq<char>, (ClaimsV, u64)> {
        token_map(self.entries.deep_view())
    }
}

impl TokenCache {
    /// The cache's entries are for pairwise distinct tokens.
    pub closed spec fn wf(&self) -> bool {
        distinct_tokens(self.entries.deep_view())
    }

    /// The empty cache a process starts with.
    pub fn new() -> (r: TokenCache)
        ensures
            r.wf(),
            r@ == Map::<Seq<char>, (ClaimsV, u64)>::empty(),
    {
        TokenCache { entries: Vec::new() }
    }

    /// Read-through lookup: the cached claims come back exactly when an
    /// entry exists for this exact token string and the clock has not passed
    /// its expiry.  A stale entry stays in place; the caller revalidates and
    /// overwrites it.
    pub fn lookup(&self, token: &str, now: u64) -> (r: Option<Claims>)
        requires
            self.wf(),
        ensures
            r is Some <==> cache_state(self@, token@, now) == CacheState::Fresh,
            r matches Some(c) ==> self@.contains_key(token@) && c@ == self@[token@].0,
    {
        let ev = Ghost(self.entries.deep_view());
        let wanted = token.to_owned();
        let n = self.entries.len();
        for i in 0..n
            invariant
                n == self.entries.len(),
                ev@ == self.entries.deep_view(),
                distinct_tokens(ev@),
                wanted@ == token@,
                forall|j: int| 0 <= j < i ==> ev@[j].0 != token@,
        {
            if self.entries[i].token == wanted {
                proof {
                    lemma_token_map_value(ev@, i as int);
                }
                if now < self.entries[i].expires_at {
                    return Some(self.entries[i].claims.clone());
                } else {
                    return None;
                }
            }
        }
        proof {
            lemma_token_map_contains(ev@, token@);
        }
        None
    }

    /// Where the entry for this exact token string sits, if anywhere.
    fn find_token(&self, token: &String) -> (r: Option<usize>)
        requires
            self.wf(),
        ensures
            r matches Some(i) ==> i < self.entries.deep_view().len()
                && self.entries.deep_view()[i as int].0 == token@,
            r is None ==> forall|j: int|
                0 <= j < self.entries.deep_view().len() ==> self.entries.deep_view()[j].0
                    != token@,
    {
        let ev = Ghost(self.entries.deep_view());
        let n = self.entries.len();
        for i in 0..n
            invariant
                n == self.entries.len(),
                ev@ == self.entries.deep_view(),
                forall|j: int| 0 <= j < i ==> ev@[j].0 != token@,
        {
            if self.entries[i].token == *token {
                return Some(i);
            }
        }
        None
    }

    /// Insert or overwrite the entry for this exact token string.
    pub fn insert(&mut self, token: String, claims: Claims, expires_at: u64)
        requires
            old(self).wf(),
        ensures
            final(self).wf(),
            final(self)@ == old(self)@.insert(token@, (claims@, expires_at)),
    {
        let ev = Ghost(self.entries.deep_view());
        let found = self.find_token(&token);
        let entry = CacheEntry { token, claims, expires_at };
        let ghost entry_v = entry.deep_view();
        match found {
            Some(i) => {
                proof {
                    lemma_token_map_update(ev@, i as int, entry_v);
                }
                self.entries.set(i, entry);
                proof {
                    assert(self.entries.deep_view() =~= ev@.update(i as int, entry_v));
                    assert(distinct_tokens(self.entries.deep_view()));
                }
            },
            None => {
                proof {
                    lemma_token_map_contains(ev@, entry_v.0);
                }
                self.entries.push(entry);
                proof {
                    let t = self.entries.deep_view();
                    assert(t =~= ev@.push(entry_v));
                    assert(t.drop_last() =~= ev@);
                    assert(t.last() == entry_v);
                    assert forall|j1: int, j2: int| 0 <= j1 < j2 < t.len() implies t[j1].0
                        != t[j2].0 by {
                        if j2 < t.len() - 1 {
                            assert(t[j1] == ev@[j1] && t[j2] == ev@[j2]);
                        } else {
                            assert(t[j1] == ev@[j1] && t[j2] == entry_v);
                        }
                    }
                }
            },
        }
    }
}

} // verus!
