//! The two caches: profiles with a time to live (and stale reads as a last resort), and
//! transformed images, kept for the life of the process.

use vstd::prelude::*;
use crate::images::{ImageConversionParams, cache_key_of};
use crate::models::{InstagramPost, InstagramReel, InstagramUser, UserModel, posts_view, reels_view};
use crate::text::{chars_of, same_chars};

verus! {

/// A cached value with its insertion and expiry times, in seconds of a monotonic clock.
/// `expires_at` is always `inserted_at` plus the time to live, saturating at `u64::MAX`.
#[derive(Debug)]
pub struct CacheEntry<T> {
    pub data: T,
    pub inserted_at: u64,
    pub expires_at: u64,
}

pub open spec fn expiry(now: u64, ttl: u64) -> u64 {
    if now + ttl <= u64::MAX { (now + ttl) as u64 } else { u64::MAX }
}

impl<T> CacheEntry<T> {
    pub fn new(data: T, ttl: u64, now: u64) -> (r: Self)
        ensures
            r.data == data,
            r.inserted_at == now,
            r.expires_at == expiry(now, ttl),
    {
        let expires_at = if ttl > u64::MAX - now { u64::MAX } else { now + ttl };
        CacheEntry { data, inserted_at: now, expires_at }
    }

    /// The time to live has run out: the age has reached it.
    pub fn is_expired(&self, now: u64) -> (r: bool)
        ensures
            r == (now >= self.expires_at),
    {
        now >= self.expires_at
    }

    /// Seconds since insertion (zero if the clock reads earlier).
    pub fn age(&self, now: u64) -> (r: u64)
        ensures
            r == if now >= self.inserted_at { (now - self.inserted_at) as u64 } else { 0 },
    {
        if now >= self.inserted_at { now - self.inserted_at } else { 0 }
    }
}

/// One cached profile, keyed by its username.
#[derive(Debug)]
pub struct UserSlot {
    pub key: String,
    pub entry: CacheEntry<InstagramUser>,
}

/// What the cache holds for a username.
pub struct CachedUser {
    pub user: UserModel,
    pub inserted_at: u64,
    pub expires_at: u64,
}

pub open spec fn age_at(inserted_at: u64, now: u64) -> u64 {
    if now >= inserted_at { (now - inserted_at) as u64 } else { 0 }
}

/// Fresh: younger than its time to live.
pub open spec fn is_fresh(c: CachedUser, now: u64) -> bool {
    now < c.expires_at
}

pub open spec fn slot_model(s: UserSlot) -> CachedUser {
    CachedUser { user: s.entry.data@, inserted_at: s.entry.inserted_at, expires_at: s.entry.expires_at }
}

pub open spec fn slot_lookup(s: Seq<UserSlot>, key: Seq<char>) -> Option<CachedUser> {
    if exists|i: int| 0 <= i < s.len() && (#[trigger] s[i]).key@ == key {
        Some(slot_model(s[choose|i: int| 0 <= i < s.len() && (#[trigger] s[i]).key@ == key]))
    } else {
        None
    }
}

pub open spec fn unique_keys(s: Seq<UserSlot>) -> bool {
    forall|i: int, j: int| 0 <= i < s.len() && 0 <= j < s.len() && i != j
        ==> (#[trigger] s[i]).key@ != (#[trigger] s[j]).key@
}

/// Profiles by username, with a time to live.
#[derive(Debug)]
pub struct InstagramCache {
    users: Vec<UserSlot>,
    cache_duration: u64,
}

proof fn lemma_lookup_at(s: Seq<UserSlot>, i: int)
    requires
        unique_keys(s),
        0 <= i < s.len(),
    ensures
        slot_lookup(s, s[i].key@) == Some(slot_model(s[i])),
{
    let key = s[i].key@;
    let j = choose|j: int| 0 <= j < s.len() && (#[trigger] s[j]).key@ == key;
    assert(s[j].key@ == key);
    if j != i {
        assert(s[i].key@ != s[j].key@);
    }
}

impl InstagramCache {
    pub closed spec fn slots(&self) -> Seq<UserSlot> {
        self.users@
    }

    /// What the cache holds for `key`.
    pub open spec fn lookup(&self, key: Seq<char>) -> Option<CachedUser> {
        slot_lookup(self.slots(), key)
    }

    pub open spec fn wf(&self) -> bool {
        unique_keys(self.slots())
    }

    /// Time to live of an entry, in seconds.
    pub closed spec fn ttl(&self) -> u64 {
        self.cache_duration
    }

    /// Time to live of an entry, in seconds.
    pub fn cache_duration(&self) -> (r: u64)
        ensures
            r == self.ttl(),
    {
        self.cache_duration
    }

    /// An empty cache whose entries live `cache_days` days (saturating).
    pub fn new(cache_days: u64) -> (r: Self)
        ensures
            r.wf(),
            forall|k: Seq<char>| r.lookup(k) is None,
            r.ttl() == if cache_days > u64::MAX / 86400 { u64::MAX } else { (cache_days * 86400) as u64 },
    {
        let d = if cache_days > u64::MAX / 86400 { u64::MAX } else { cache_days * 86400 };
        InstagramCache { users: Vec::new(), cache_duration: d }
    }

    fn position(&self, username: &str) -> (r: Option<usize>)
        requires
            self.wf(),
        ensures
            r is Some ==> r->0 < self.slots().len() && self.slots()[r->0 as int].key@ == username@
                && self.lookup(username@) == Some(slot_model(self.slots()[r->0 as int])),
            r is None ==> self.lookup(username@) is None,
            r is None ==> forall|i: int| 0 <= i < self.slots().len() ==> (#[trigger] self.slots()[i]).key@ != username@,
    {
        let k = chars_of(username);
        let mut i: usize = 0;
        while i < self.users.len()
            invariant
                self.wf(),
                k@ == username@,
                i <= self.users@.len(),
                forall|j: int| 0 <= j < i ==> (#[trigger] self.users@[j]).key@ != username@,
            decreases self.users@.len() - i,
        {
            let c = chars_of(self.users[i].key.as_str());
            if same_chars(&c, &k) {
                proof {
                    lemma_lookup_at(self.users@, i as int);
                }
                return Some(i);
            }
            i = i + 1;
        }
        None
    }

    /// The profile and its age when it is fresh.
    pub fn get_user(&self, username: &str, now: u64) -> (r: Option<(InstagramUser, u64)>)
        requires
            self.wf(),
        ensures
            r is Some <==> (self.lookup(username@) is Some && is_fresh(self.lookup(username@)->0, now)),
            r is Some ==> (r->0).0@ == self.lookup(username@)->0.user
                && (r->0).1 == age_at(self.lookup(username@)->0.inserted_at, now),
    {
        match self.position(username) {
            Some(i) => {
                let e = &self.users[i].entry;
                if !e.is_expired(now) {
                    Some((e.data.duplicate(), e.age(now)))
                } else {
                    None
                }
            },
            None => None,
        }
    }

    /// The profile and its age, expired or not.
    pub fn get_user_even_expired(&self, username: &str, now: u64) -> (r: Option<(InstagramUser, u64)>)
        requires
            self.wf(),
        ensures
            r is Some <==> self.lookup(username@) is Some,
            r is Some ==> (r->0).0@ == self.lookup(username@)->0.user
                && (r->0).1 == age_at(self.lookup(username@)->0.inserted_at, now),
    {
        match self.position(username) {
            Some(i) => {
                let e = &self.users[i].entry;
                Some((e.data.duplicate(), e.age(now)))
            },
            None => None,
        }
    }

    /// Replaces whatever the cache held for the profile's username.
    pub fn store_user(&mut self, user: InstagramUser, now: u64)
        requires
            old(self).wf(),
        ensures
            final(self).wf(),
            final(self).ttl() == old(self).ttl(),
            final(self).lookup(user.username@) == Some(CachedUser {
                user: user@,
                inserted_at: now,
                expires_at: expiry(now, old(self).ttl()),
            }),
            forall|k: Seq<char>| k != user.username@ ==> #[trigger] final(self).lookup(k) == old(self).lookup(k),
    {
        let ghost before = self.users@;
        let ghost key = user.username@;
        let name = user.username.clone();
        let entry = CacheEntry::new(user, self.cache_duration, now);
        let slot = UserSlot { key: name, entry };
        match self.position(slot.key.as_str()) {
            Some(i) => {
                self.users.set(i, slot);
                proof {
                    assert(unique_keys(self.users@)) by {
                        assert forall|a: int, b: int| 0 <= a < self.users@.len() && 0 <= b < self.users@.len() && a != b
                            implies (#[trigger] self.users@[a]).key@ != (#[trigger] self.users@[b]).key@ by {
                            assert(before[a].key@ != before[b].key@);
                        }
                    }
                    lemma_lookup_at(self.users@, i as int);
                    assert forall|k: Seq<char>| k != key implies #[trigger] slot_lookup(self.users@, k) == slot_lookup(before, k) by {
                        if exists|j: int| 0 <= j < before.len() && (#[trigger] before[j]).key@ == k {
                            let j = choose|j: int| 0 <= j < before.len() && (#[trigger] before[j]).key@ == k;
                            assert(j != i);
                            assert(self.users@[j] == before[j]);
                            lemma_lookup_at(before, j);
                            lemma_lookup_at(self.users@, j);
                        } else {
                            assert forall|j: int| 0 <= j < self.users@.len() implies (#[trigger] self.users@[j]).key@ != k by {
                                if j != i {
                                    assert(self.users@[j] == before[j]);
                                }
                            }
                        }
                    }
                }
            },
            None => {
                self.users.push(slot);
                proof {
                    let n = before.len() as int;
                    assert(unique_keys(self.users@)) by {
                        assert forall|a: int, b: int| 0 <= a < self.users@.len() && 0 <= b < self.users@.len() && a != b
                            implies (#[trigger] self.users@[a]).key@ != (#[trigger] self.users@[b]).key@ by {
                            if a < n && b < n {
                                assert(before[a].key@ != before[b].key@);
                            } else if a < n {
                                assert(self.users@[a] == before[a]);
                            } else if b < n {
                                assert(self.users@[b] == before[b]);
                            }
                        }
                    }
                    lemma_lookup_at(self.users@, n);
                    assert forall|k: Seq<char>| k != key implies #[trigger] slot_lookup(self.users@, k) == slot_lookup(before, k) by {
                        if exists|j: int| 0 <= j < before.len() && (#[trigger] before[j]).key@ == k {
                            let j = choose|j: int| 0 <= j < before.len() && (#[trigger] before[j]).key@ == k;
                            assert(self.users@[j] == before[j]);
                            lemma_lookup_at(before, j);
                            lemma_lookup_at(self.users@, j);
                        } else {
                            assert forall|j: int| 0 <= j < self.users@.len() implies (#[trigger] self.users@[j]).key@ != k by {
                                if j < n {
                                    assert(self.users@[j] == before[j]);
                                }
                            }
                        }
                    }
                }
            },
        }
    }

    /// The posts of a fresh profile that has them.
    pub fn get_posts(&self, username: &str, now: u64) -> (r: Option<(Vec<InstagramPost>, u64)>)
        requires
            self.wf(),
        ensures
            r is Some <==> (self.lookup(username@) is Some && is_fresh(self.lookup(username@)->0, now)
                && self.lookup(username@)->0.user.posts is Some),
            r is Some ==> Some(posts_view((r->0).0@)) == self.lookup(username@)->0.user.posts
                && (r->0).1 == age_at(self.lookup(username@)->0.inserted_at, now),
    {
        let (user, age) = self.get_user(username, now)?;
        match user.posts {
            Some(p) => Some((p, age)),
            None => None,
        }
    }

    /// The posts of a profile that has them, expired or not.
    pub fn get_posts_even_expired(&self, username: &str, now: u64) -> (r: Option<(Vec<InstagramPost>, u64)>)
        requires
            self.wf(),
        ensures
            r is Some <==> (self.lookup(username@) is Some && self.lookup(username@)->0.user.posts is Some),
            r is Some ==> Some(posts_view((r->0).0@)) == self.lookup(username@)->0.user.posts
                && (r->0).1 == age_at(self.lookup(username@)->0.inserted_at, now),
    {
        let (user, age) = self.get_user_even_expired(username, now)?;
        match user.posts {
            Some(p) => Some((p, age)),
            None => None,
        }
    }

    /// The reels of a fresh profile that has them.
    pub fn get_reels(&self, username: &str, now: u64) -> (r: Option<(Vec<InstagramReel>, u64)>)
        requires
            self.wf(),
        ensures
            r is Some <==> (self.lookup(username@) is Some && is_fresh(self.lookup(username@)->0, now)
                && self.lookup(username@)->0.user.reels is Some),
            r is Some ==> Some(reels_view((r->0).0@)) == self.lookup(username@)->0.user.reels
                && (r->0).1 == age_at(self.lookup(username@)->0.inserted_at, now),
    {
        let (user, age) = self.get_user(username, now)?;
        match user.reels {
            Some(p) => Some((p, age)),
            None => None,
        }
    }

    /// The reels of a profile that has them, expired or not.
    pub fn get_reels_even_expired(&self, username: &str, now: u64) -> (r: Option<(Vec<InstagramReel>, u64)>)
        requires
            self.wf(),
        ensures
            r is Some <==> (self.lookup(username@) is Some && self.lookup(username@)->0.user.reels is Some),
            r is Some ==> Some(reels_view((r->0).0@)) == self.lookup(username@)->0.user.reels
                && (r->0).1 == age_at(self.lookup(username@)->0.inserted_at, now),
    {
        let (user, age) = self.get_user_even_expired(username, now)?;
        match user.reels {
            Some(p) => Some((p, age)),
            None => None,
        }
    }
}

/// An entry stored at `t0` with time to live `d` is served fresh one second before its
/// expiry and not one second after; a stale read serves it at both times, the second
/// time with an age of at least `d + 1`.
pub proof fn lemma_freshness_window(c: CachedUser, t0: u64, d: u64)
    requires
        c.inserted_at == t0,
        c.expires_at == expiry(t0, d),
        d >= 1,
        t0 + d + 1 <= u64::MAX,
    ensures
        is_fresh(c, (t0 + d - 1) as u64),
        !is_fresh(c, (t0 + d + 1) as u64),
        age_at(c.inserted_at, (t0 + d + 1) as u64) >= d + 1,
{
}

// ---------------------------------------------------------------------------
// Transformed images
// ---------------------------------------------------------------------------

/// Key of a transformed image: the source URL, `#`, and the parameters' canonical key.
pub open spec fn image_key(url: Seq<char>, params: ImageConversionParams) -> Seq<char> {
    url + "#"@ + cache_key_of(params)
}

#[derive(Debug)]
pub struct ImageSlot {
    pub key: String,
    pub data: Vec<u8>,
    pub content_type: String,
}

pub open spec fn image_slot_lookup(s: Seq<ImageSlot>, key: Seq<char>) -> Option<(Seq<u8>, Seq<char>)> {
    if exists|i: int| 0 <= i < s.len() && (#[trigger] s[i]).key@ == key {
        let i = choose|i: int| 0 <= i < s.len() && (#[trigger] s[i]).key@ == key;
        Some((s[i].data@, s[i].content_type@))
    } else {
        None
    }
}

pub open spec fn unique_image_keys(s: Seq<ImageSlot>) -> bool {
    forall|i: int, j: int| 0 <= i < s.len() && 0 <= j < s.len() && i != j
        ==> (#[trigger] s[i]).key@ != (#[trigger] s[j]).key@
}

proof fn lemma_image_lookup_at(s: Seq<ImageSlot>, i: int)
    requires
        unique_image_keys(s),
        0 <= i < s.len(),
    ensures
        image_slot_lookup(s, s[i].key@) == Some((s[i].data@, s[i].content_type@)),
{
    let key = s[i].key@;
    let j = choose|j: int| 0 <= j < s.len() && (#[trigger] s[j]).key@ == key;
    assert(s[j].key@ == key);
    if j != i {
        assert(s[i].key@ != s[j].key@);
    }
}

/// A copy of the bytes.
pub fn copy_image_bytes(v: &Vec<u8>) -> (r: Vec<u8>)
    ensures
        r@ == v@,
{
    let mut out: Vec<u8> = Vec::new();
    let mut i: usize = 0;
    while i < v.len()
        invariant
            i <= v@.len(),
            out@ == v@.subrange(0, i as int),
        decreases v@.len() - i,
    {
        out.push(v[i]);
        i = i + 1;
        assert(out@ =~= v@.subrange(0, i as int));
    }
    assert(out@ =~= v@);
    out
}

/// Transformed images by source URL and parameters. Never evicted.
#[derive(Debug)]
pub struct ImageCache {
    images: Vec<ImageSlot>,
}

impl ImageCache {
    pub closed spec fn slots(&self) -> Seq<ImageSlot> {
        self.images@
    }

    /// Bytes and content type held under `key`.
    pub open spec fn lookup(&self, key: Seq<char>) -> Option<(Seq<u8>, Seq<char>)> {
        image_slot_lookup(self.slots(), key)
    }

    pub open spec fn wf(&self) -> bool {
        unique_image_keys(self.slots())
    }

    pub fn new() -> (r: Self)
        ensures
            r.wf(),
            forall|k: Seq<char>| r.lookup(k) is None,
    {
        ImageCache { images: Vec::new() }
    }

    /// The key of a transformed image (see `image_key`).
    pub fn generate_cache_key(&self, url: &str, params: &ImageConversionParams) -> (r: String)
        ensures
            r@ == image_key(url@, *params),
    {
        String::from_str(url).concat("#").concat(params.to_cache_key().as_str())
    }

    fn position(&self, key: &str) -> (r: Option<usize>)
        requires
            self.wf(),
        ensures
            r is Some ==> r->0 < self.slots().len() && self.slots()[r->0 as int].key@ == key@,
            r is None ==> forall|i: int| 0 <= i < self.slots().len() ==> (#[trigger] self.slots()[i]).key@ != key@,
    {
        let k = chars_of(key);
        let mut i: usize = 0;
        while i < self.images.len()
            invariant
                k@ == key@,
                i <= self.images@.len(),
                forall|j: int| 0 <= j < i ==> (#[trigger] self.images@[j]).key@ != key@,
            decreases self.images@.len() - i,
        {
            let c = chars_of(self.images[i].key.as_str());
            if same_chars(&c, &k) {
                return Some(i);
            }
            i = i + 1;
        }
        None
    }

    /// The stored bytes and content type for this URL and parameters.
    pub fn get_image(&self, url: &str, params: &ImageConversionParams) -> (r: Option<(Vec<u8>, String)>)
        requires
            self.wf(),
        ensures
            r is Some <==> self.lookup(image_key(url@, *params)) is Some,
            r is Some ==> self.lookup(image_key(url@, *params)) == Some(((r->0).0@, (r->0).1@)),
    {
        let key = self.generate_cache_key(url, params);
        match self.position(key.as_str()) {
            Some(i) => {
                proof {
                    lemma_image_lookup_at(self.images@, i as int);
                }
                let slot = &self.images[i];
                Some((copy_image_bytes(&slot.data), slot.content_type.clone()))
            },
            None => None,
        }
    }

    /// Stores the bytes and content type for this URL and parameters, replacing any
    /// earlier ones.
    pub fn store_image(&mut self, url: &str, params: &ImageConversionParams, data: Vec<u8>, content_type: String)
        requires
            old(self).wf(),
        ensures
            final(self).wf(),
            final(self).lookup(image_key(url@, *params)) == Some((data@, content_type@)),
            forall|k: Seq<char>| k != image_key(url@, *params) ==> #[trigger] final(self).lookup(k) == old(self).lookup(k),
    {
        let ghost before = self.images@;
        let key = self.generate_cache_key(url, params);
        let ghost kv = key@;
        let pos = self.position(key.as_str());
        let slot = ImageSlot { key, data, content_type };
        match pos {
            Some(i) => {
                self.images.set(i, slot);
                proof {
                    assert(unique_image_keys(self.images@)) by {
                        assert forall|a: int, b: int| 0 <= a < self.images@.len() && 0 <= b < self.images@.len() && a != b
                            implies (#[trigger] self.images@[a]).key@ != (#[trigger] self.images@[b]).key@ by {
                            assert(before[a].key@ != before[b].key@);
                        }
                    }
                    lemma_image_lookup_at(self.images@, i as int);
                    assert forall|k: Seq<char>| k != kv implies #[trigger] image_slot_lookup(self.images@, k) == image_slot_lookup(before, k) by {
                        if exists|j: int| 0 <= j < before.len() && (#[trigger] before[j]).key@ == k {
                            let j = choose|j: int| 0 <= j < before.len() && (#[trigger] before[j]).key@ == k;
                            assert(self.images@[j] == before[j]);
                            lemma_image_lookup_at(before, j);
                            lemma_image_lookup_at(self.images@, j);
                        } else {
                            assert forall|j: int| 0 <= j < self.images@.len() implies (#[trigger] self.images@[j]).key@ != k by {
                                if j != i {
                                    assert(self.images@[j] == before[j]);
                                }
                            }
                        }
                    }
                }
            },
            None => {
                self.images.push(slot);
                proof {
                    let n = before.len() as int;
                    assert(unique_image_keys(self.images@)) by {
                        assert forall|a: int, b: int| 0 <= a < self.images@.len() && 0 <= b < self.images@.len() && a != b
                            implies (#[trigger] self.images@[a]).key@ != (#[trigger] self.images@[b]).key@ by {
                            if a < n && b < n {
                                assert(before[a].key@ != before[b].key@);
                            } else if a < n {
                                assert(self.images@[a] == before[a]);
                            } else if b < n {
                                assert(self.images@[b] == before[b]);
                            }
                        }
                    }
                    lemma_image_lookup_at(self.images@, n);
                    assert forall|k: Seq<char>| k != kv implies #[trigger] image_slot_lookup(self.images@, k) == image_slot_lookup(before, k) by {
                        if exists|j: int| 0 <= j < before.len() && (#[trigger] before[j]).key@ == k {
                            let j = choose|j: int| 0 <= j < before.len() && (#[trigger] before[j]).key@ == k;
                            assert(self.images@[j] == before[j]);
                            lemma_image_lookup_at(before, j);
                            lemma_image_lookup_at(self.images@, j);
                        } else {
                            assert forall|j: int| 0 <= j < self.images@.len() implies (#[trigger] self.images@[j]).key@ != k by {
                                if j < n {
                                    assert(self.images@[j] == before[j]);
                                }
                            }
                        }
                    }
                }
            },
        }
    }
}

/// Once the result for a URL and parameters is stored, a later request for the same URL
/// with parameters of the same canonical key (however they were built) finds the same
/// bytes and content type.
pub proof fn lemma_repeat_request_hits(before: ImageCache, after: ImageCache, url: Seq<char>,
    first: ImageConversionParams, second: ImageConversionParams, data: Seq<u8>, content_type: Seq<char>)
    requires
        after.lookup(image_key(url, first)) == Some((data, content_type)),
        forall|k: Seq<char>| k != image_key(url, first) ==> #[trigger] after.lookup(k) == before.lookup(k),
        cache_key_of(second) == cache_key_of(first),
    ensures
        after.lookup(image_key(url, second)) == Some((data, content_type)),
{
}

} // verus!
