//! The key-set snapshot: a mapping from key id to RSA signing key,
//! replaced wholesale on each refresh and never merged incrementally.

use vstd::prelude::*;

use crate::alg::RsAlg;

verus! {

/// The mathematical value of a `SigningKey`.
pub struct SigningKeyV {
    pub kid: Seq<char>,
    pub alg: RsAlg,
    pub n: Seq<char>,
    pub e: Seq<char>,
    pub sig_use: bool,
}

/// One RSA public signing key from the provider's key set, identified by its
/// key id and immutable once obtained.  Only RSA-family keys exist as values
/// of this type; anything else is rejected when the key set is parsed.
#[derive(Debug)]
pub struct SigningKey {
    /// The key id (`kid`) selecting this key.
    pub kid: String,
    /// The RSA-family algorithm the key is for.
    pub alg: RsAlg,
    /// The base64url RSA modulus.
    pub n: String,
    /// The base64url RSA public exponent.
    pub e: String,
    /// Whether the key declares the signature (`sig`) use.
    pub sig_use: bool,
}

impl View for SigningKey {
    type V = SigningKeyV;

    open spec fn view(&self) -> SigningKeyV {
        SigningKeyV {
            kid: self.kid@,
            alg: self.alg,
            n: self.n@,
            e: self.e@,
            sig_use: self.sig_use,
        }
    }
}

impl DeepView for SigningKey {
    type V = SigningKeyV;

    open spec fn deep_view(&self) -> SigningKeyV {
        self.view()
    }
}

impl Clone for SigningKey {
    fn clone(&self) -> (r: Self)
        ensures
            r@ == self@,
    {
        SigningKey {
            kid: self.kid.clone(),
            alg: self.alg,
            n: self.n.clone(),
            e: self.e.clone(),
            sig_use: self.sig_use,
        }
    }
}

/// The mapping that a sequence of keys denotes: keys are read left to right,
/// and a later key with the same id overwrites an earlier one.
pub open spec fn kid_map(s: Seq<SigningKeyV>) -> Map<Seq<char>, SigningKeyV>
    decreases s.len(),
{
    if s.len() == 0 {
        Map::empty()
    } else {
        kid_map(s.drop_last()).insert(s.last().kid, s.last())
    }
}

/// Whether the keys of `s` carry pairwise distinct key ids.
pub open spec fn distinct_kids(s: Seq<SigningKeyV>) -> bool {
    forall|i: int, j: int| 0 <= i < j < s.len() ==> s[i].kid != s[j].kid
}

/// A key id is in the denoted mapping exactly when some key carries it.
pub proof fn lemma_kid_map_contains(s: Seq<SigningKeyV>, kid: Seq<char>)
    ensures
        kid_map(s).contains_key(kid) <==> exists|i: int|
            0 <= i < s.len() && #[trigger] s[i].kid == kid,
    decreases s.len(),
{
    if s.len() > 0 {
        lemma_kid_map_contains(s.drop_last(), kid);
        if s.last().kid == kid {
            assert(s[s.len() - 1].kid == kid);
        } else {
            if kid_map(s).contains_key(kid) {
                let i = choose|i: int| 0 <= i < s.drop_last().len() && #[trigger] s.drop_last()[i].kid == kid;
                assert(s[i].kid == kid);
            }
            if exists|i: int| 0 <= i < s.len() && #[trigger] s[i].kid == kid {
                let i = choose|i: int| 0 <= i < s.len() && #[trigger] s[i].kid == kid;
                assert(s.drop_last()[i].kid == kid);
            }
        }
    }
}

/// When no later key repeats the id of `s[i]`, the denoted mapping sends
/// that id to `s[i]` itself.
pub proof fn lemma_kid_map_value(s: Seq<SigningKeyV>, i: int)
    requires
        0 <= i < s.len(),
        forall|j: int| i < j < s.len() ==> s[j].kid != s[i].kid,
    ensures
        kid_map(s).contains_key(s[i].kid),
        kid_map(s)[s[i].kid] == s[i],
    decreases s.len(),
{
    if i < s.len() - 1 {
        assert(s.drop_last()[i] == s[i]);
        lemma_kid_map_value(s.drop_last(), i);
        assert(s.last() == s[s.len() - 1]);
    }
}

/// Overwriting the one key that carries an id denotes the same mapping as
/// inserting the replacement.
pub proof fn lemma_kid_map_update(s: Seq<SigningKeyV>, i: int, v: SigningKeyV)
    requires
        0 <= i < s.len(),
        s[i].kid == v.kid,
        distinct_kids(s),
    ensures
        kid_map(s.update(i, v)) =~= kid_map(s).insert(v.kid, v),
    decreases s.len(),
{
    let t = s.update(i, v);
    if i == s.len() - 1 {
        assert(t.drop_last() =~= s.drop_last());
        assert(t.last() == v);
    } else {
        assert(t.drop_last() =~= s.drop_last().update(i, v));
        assert(s.drop_last()[i] == s[i]);
        lemma_kid_map_update(s.drop_last(), i, v);
        assert(t.last() == s.last());
        assert(s.last().kid != v.kid);
        assert(kid_map(s.drop_last()).insert(v.kid, v).insert(s.last().kid, s.last()) =~= kid_map(
            s.drop_last(),
        ).insert(s.last().kid, s.last()).insert(v.kid, v));
    }
}

/// The process-wide key-set snapshot.  It reflects exactly one completed
/// fetch: a refresh builds a new snapshot from the fetched keys alone and
/// replaces the old one atomically; two fetches never mix.
pub struct JwksSnapshot {
    keys: Vec<SigningKey>,
}

impl View for JwksSnapshot {
    type V = Map<Seq<char>, SigningKeyV>;

    closed spec fn view(&self) -> Map<Seq<char>, SigningKeyV> {
        kid_map(self.keys.deep_view())
    }
}

impl JwksSnapshot {
    /// The snapshot's keys carry pairwise distinct ids.
    pub closed spec fn wf(&self) -> bool {
        distinct_kids(self.keys.deep_view())
    }

    /// The empty snapshot a process starts with.
    pub fn empty() -> (r: JwksSnapshot)
        ensures
            r.wf(),
            r@ == Map::<Seq<char>, SigningKeyV>::empty(),
    {
        JwksSnapshot { keys: Vec::new() }
    }

    /// Where the key with this id sits, if anywhere.
    fn find_kid(&self, kid: &String) -> (r: Option<usize>)
        ensures
            r matches Some(i) ==> i < self.keys.deep_view().len()
                && self.keys.deep_view()[i as int].kid == kid@,
            r is None ==> forall|j: int|
                0 <= j < self.keys.deep_view().len() ==> self.keys.deep_view()[j].kid != kid@,
    {
        let kv = Ghost(self.keys.deep_view());
        let n = self.keys.len();
        for i in 0..n
            invariant
                n == self.keys.len(),
                kv@ == self.keys.deep_view(),
                forall|j: int| 0 <= j < i ==> kv@[j].kid != kid@,
        {
            if self.keys[i].kid == *kid {
                return Some(i);
            }
        }
        None
    }

    /// Insert one key, overwriting a key with the same id if there is one.
    fn insert_key(&mut self, k: SigningKey)
        requires
            old(self).wf(),
        ensures
            final(self).wf(),
            final(self)@ == old(self)@.insert(k@.kid, k@),
    {
        let kv = Ghost(self.keys.deep_view());
        let ghost kval = k@;
        let found = self.find_kid(&k.kid);
        match found {
            Some(i) => {
                proof {
                    lemma_kid_map_update(kv@, i as int, kval);
                }
                self.keys.set(i, k);
                proof {
                    assert(self.keys.deep_view() =~= kv@.update(i as int, kval));
                    assert(distinct_kids(self.keys.deep_view()));
                }
            },
            None => {
                proof {
                    lemma_kid_map_contains(kv@, kval.kid);
                }
                self.keys.push(k);
                proof {
                    let t = self.keys.deep_view();
                    assert(t =~= kv@.push(kval));
                    assert(t.drop_last() =~= kv@);
                    assert(t.last() == kval);
                    assert forall|j1: int, j2: int| 0 <= j1 < j2 < t.len() implies t[j1].kid
                        != t[j2].kid by {
                        if j2 < t.len() - 1 {
                            assert(t[j1] == kv@[j1] && t[j2] == kv@[j2]);
                        } else {
                            assert(t[j1] == kv@[j1] && t[j2] == kval);
                        }
                    }
                }
            },
        }
    }

    /// Build a snapshot from the keys of one fetched document.  A later key
    /// with a repeated id wins, and nothing but the given keys is in the
    /// result: full-replace semantics.
    pub fn from_keys(keys: Vec<SigningKey>) -> (r: JwksSnapshot)
        ensures
            r.wf(),
            r@ == kid_map(keys.deep_view()),
    {
        let mut snap = JwksSnapshot::empty();
        let n = keys.len();
        for i in 0..n
            invariant
                n == keys.len(),
                snap.wf(),
                snap@ == kid_map(keys.deep_view().take(i as int)),
        {
            snap.insert_key(keys[i].clone());
            proof {
                let t = keys.deep_view().take(i + 1);
                assert(t.drop_last() =~= keys.deep_view().take(i as int));
                assert(t.last() == keys.deep_view()[i as int]);
            }
        }
        proof {
            assert(keys.deep_view().take(n as int) =~= keys.deep_view());
        }
        snap
    }

    /// Look a key id up in the snapshot.  No refresh happens here: a miss is
    /// reported so that the caller may trigger one.
    pub fn get_key(&self, kid: &str) -> (r: Option<&SigningKey>)
        requires
            self.wf(),
        ensures
            r is Some <==> self@.contains_key(kid@),
            r matches Some(k) ==> self@.contains_key(kid@) && self@[kid@] == k@,
    {
        let kv = Ghost(self.keys.deep_view());
        let wanted = kid.to_owned();
        let n = self.keys.len();
        for i in 0..n
            invariant
                n == self.keys.len(),
                kv@ == self.keys.deep_view(),
                distinct_kids(kv@),
                wanted@ == kid@,
                forall|j: int| 0 <= j < i ==> kv@[j].kid != kid@,
        {
            if self.keys[i].kid == wanted {
                proof {
                    lemma_kid_map_value(kv@, i as int);
                }
                return Some(&self.keys[i]);
            }
        }
        proof {
            lemma_kid_map_contains(kv@, kid@);
        }
        None
    }
}

} // verus!
