//! Cache of the identity provider's public signing keys.
//!
//! The provider rotates its keys, so the cache holds the full key set
//! with a fixed time-to-live and is replaced wholesale on every
//! refresh.  The network fetch itself happens outside this crate: a
//! caller that misses calls `install` with the freshly fetched set and
//! looks the key id up again.

use vstd::prelude::*;

verus! {

/// How long an installed key set stays valid, in seconds.
pub const KEY_TTL_SECS: u64 = 300;

/// One public RSA signing key of the identity provider, as served by
/// its public-keys endpoint: modulus and exponent are base64url text.
#[derive(Debug)]
pub struct SigningKey {
    pub key_id: String,
    pub modulus: String,
    pub exponent: String,
}

impl Clone for SigningKey {
    fn clone(&self) -> (r: Self)
        ensures
            r == *self,
    {
        SigningKey {
            key_id: self.key_id.clone(),
            modulus: self.modulus.clone(),
            exponent: self.exponent.clone(),
        }
    }
}

/// A fetched key set together with the time it was fetched and its
/// time-to-live.  Replaced wholesale on refresh, never edited.
pub struct KeyCacheEntry {
    pub keys: Vec<SigningKey>,
    pub fetched_at: u64,
    pub ttl: u64,
}

impl KeyCacheEntry {
    /// An entry is valid while `now` is before `fetched_at + ttl`.
    pub open spec fn valid_at(self, now: u64) -> bool {
        (now as int) < self.fetched_at + self.ttl
    }
}

/// Whether some key in `keys` carries the key id `kid`.
pub open spec fn has_key(keys: Seq<SigningKey>, kid: Seq<char>) -> bool {
    exists|i: int| 0 <= i < keys.len() && #[trigger] keys[i].key_id@ == kid
}

/// The first key in `keys` carrying the key id `kid`, if any.
pub open spec fn find_key(keys: Seq<SigningKey>, kid: Seq<char>) -> Option<SigningKey>
    decreases keys.len(),
{
    if keys.len() == 0 {
        None
    } else if keys[0].key_id@ == kid {
        Some(keys[0])
    } else {
        find_key(keys.drop_first(), kid)
    }
}

/// `find_key` succeeds exactly on the key ids that `has_key` sees,
/// and what it returns carries the requested key id.
pub proof fn lemma_find_key_characterises(keys: Seq<SigningKey>, kid: Seq<char>)
    ensures
        find_key(keys, kid) is Some <==> has_key(keys, kid),
        find_key(keys, kid) matches Some(k) ==> k.key_id@ == kid && has_key(keys, kid),
    decreases keys.len(),
{
    if keys.len() == 0 {
    } else if keys[0].key_id@ == kid {
        assert(has_key(keys, kid));
    } else {
        lemma_find_key_characterises(keys.drop_first(), kid);
        if has_key(keys, kid) {
            let i = choose|i: int| 0 <= i < keys.len() && #[trigger] keys[i].key_id@ == kid;
            assert(keys.drop_first()[i - 1] == keys[i]);
            assert(has_key(keys.drop_first(), kid));
        }
        if has_key(keys.drop_first(), kid) {
            let j = choose|j: int|
                0 <= j < keys.drop_first().len() && #[trigger] keys.drop_first()[j].key_id@ == kid;
            assert(keys[j + 1] == keys.drop_first()[j]);
            assert(has_key(keys, kid));
        }
    }
}

/// The cache slot: empty at startup, then always holding the most
/// recently installed entry.
pub struct KeyCache {
    entry: Option<KeyCacheEntry>,
}

impl KeyCache {
    /// The entry currently held, for specifications.
    pub closed spec fn spec_entry(self) -> Option<KeyCacheEntry> {
        self.entry
    }

    /// What a lookup at time `now` returns: a key only out of a valid
    /// entry that carries the key id.
    pub open spec fn spec_lookup(self, kid: Seq<char>, now: u64) -> Option<SigningKey> {
        match self.spec_entry() {
            None => None,
            Some(e) => if e.valid_at(now) {
                find_key(e.keys@, kid)
            } else {
                None
            },
        }
    }

    /// A cache that has fetched nothing yet.
    pub fn new() -> (r: KeyCache)
        ensures
            r.spec_entry() is None,
    {
        KeyCache { entry: None }
    }

    /// Returns the cached key for `kid` if the cached entry is still
    /// valid at `now` and contains it; `None` means the caller must
    /// fetch the provider's current key set and `install` it.
    pub fn lookup(&self, kid: &String, now: u64) -> (r: Option<SigningKey>)
        ensures
            r == self.spec_lookup(kid@, now),
    {
        match &self.entry {
            None => None,
            Some(e) => {
                let fresh = now < e.fetched_at || now - e.fetched_at < e.ttl;
                if !fresh {
                    return None;
                }
                let n = e.keys.len();
                let mut i: usize = 0;
                assert(e.keys@.skip(0) =~= e.keys@);
                while i < n
                    invariant
                        n == e.keys.len(),
                        0 <= i <= n,
                        e.valid_at(now),
                        self.spec_entry() == Some(*e),
                        find_key(e.keys@, kid@) == find_key(e.keys@.skip(i as int), kid@),
                    decreases n - i,
                {
                    if e.keys[i].key_id == *kid {
                        assert(e.keys@.skip(i as int)[0] == e.keys@[i as int]);
                        return Some(e.keys[i].clone());
                    }
                    assert(e.keys@.skip(i as int).drop_first() =~= e.keys@.skip(i + 1));
                    i = i + 1;
                }
                assert(e.keys@.skip(n as int) =~= Seq::<SigningKey>::empty());
                None
            },
        }
    }

    /// Installs a freshly fetched key set, replacing whatever entry was
    /// cached before in a single wholesale swap.  The new entry is
    /// stamped with the fetch time and the fixed time-to-live.
    pub fn install(&mut self, keys: Vec<SigningKey>, now: u64)
        ensures
            final(self).spec_entry() matches Some(e) && e.keys@ == keys@ && e.fetched_at == now
                && e.ttl == KEY_TTL_SECS,
    {
        self.entry = Some(KeyCacheEntry { keys, fetched_at: now, ttl: KEY_TTL_SECS });
    }
}

/// After a successful fetch installed at time `t0`, a lookup of any key
/// id present in that fetch is answered out of the cache (no refresh)
/// at every time before the time-to-live elapses.
pub proof fn lemma_hit_until_ttl_elapses(c: KeyCache, kid: Seq<char>, t0: u64, now: u64)
    requires
        c.spec_entry() matches Some(e) && e.fetched_at == t0 && e.ttl == KEY_TTL_SECS
            && has_key(e.keys@, kid),
        now < t0 + KEY_TTL_SECS,
    ensures
        c.spec_lookup(kid, now) matches Some(k) && k.key_id@ == kid,
{
    let e = c.spec_entry().unwrap();
    lemma_find_key_characterises(e.keys@, kid);
}

/// A key id absent from a valid entry forces a refresh, and the lookup
/// right after the refresh is decided by the freshly installed set
/// alone: present means returned, absent means the id is unknown.
pub proof fn lemma_refresh_on_miss(
    before: KeyCache,
    after: KeyCache,
    kid: Seq<char>,
    fetched: Seq<SigningKey>,
    now: u64,
)
    requires
        !has_key(
            match before.spec_entry() {
                Some(e) => e.keys@,
                None => Seq::empty(),
            },
            kid,
        ),
        after.spec_entry() matches Some(e) && e.keys@ == fetched && e.fetched_at == now
            && e.ttl == KEY_TTL_SECS,
    ensures
        before.spec_lookup(kid, now) is None,
        has_key(fetched, kid) ==> (after.spec_lookup(kid, now) matches Some(k) && k.key_id@
            == kid),
        !has_key(fetched, kid) ==> after.spec_lookup(kid, now) is None,
{
    match before.spec_entry() {
        None => {},
        Some(e) => {
            lemma_find_key_characterises(e.keys@, kid);
        },
    }
    let e1 = after.spec_entry().unwrap();
    lemma_find_key_characterises(e1.keys@, kid);
}

/// Rotation: once an entry not carrying a key id has been installed,
/// that key id is unreachable through the cache at any time, however
/// the entry's validity plays out.
pub proof fn lemma_rotated_key_unreachable(c: KeyCache, kid: Seq<char>, now: u64)
    requires
        c.spec_entry() matches Some(e) && !has_key(e.keys@, kid),
    ensures
        c.spec_lookup(kid, now) is None,
{
    let e = c.spec_entry().unwrap();
    lemma_find_key_characterises(e.keys@, kid);
}

} // verus!
