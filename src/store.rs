//! An in-process result store with per-key expiry: the set-with-expiry / get
//! contract that results are kept under, with time passed in explicitly.
use vstd::prelude::*;

verus! {

/// One write: `value` under `key`, visible while the clock is below `expires_at`.
pub struct StoreEntry {
    pub key: String,
    pub value: String,
    pub expires_at: u64,
}

/// A key-value store whose entries expire. Later writes to a key replace
/// earlier ones.
pub struct ExpiringStore {
    entries: Vec<StoreEntry>,
}

/// The latest write to each key, as (value, expiry time), of a write log.
pub open spec fn latest(log: Seq<StoreEntry>) -> Map<Seq<char>, (Seq<char>, nat)>
    decreases log.len(),
{
    if log.len() == 0 {
        Map::empty()
    } else {
        let e = log.last();
        latest(log.drop_last()).insert(e.key@, (e.value@, e.expires_at as nat))
    }
}

/// What a read of `key` at time `now` sees: the value, while it has not expired.
pub open spec fn visible(m: Map<Seq<char>, (Seq<char>, nat)>, key: Seq<char>, now: nat) -> Option<
    Seq<char>,
> {
    if m.contains_key(key) && now < m[key].1 {
        Some(m[key].0)
    } else {
        None
    }
}

/// The expiry time of a write at `now` that is kept for `ttl` seconds, capped
/// at the clock's range.
pub open spec fn expiry(now: u64, ttl: u64) -> nat {
    if now + ttl <= u64::MAX {
        (now + ttl) as nat
    } else {
        u64::MAX as nat
    }
}

/// A value written with a time-to-live of `ttl` seconds is visible before
/// `ttl` seconds have passed and gone afterwards; other keys are untouched.
pub proof fn lemma_ttl_visibility(
    m: Map<Seq<char>, (Seq<char>, nat)>,
    key: Seq<char>,
    value: Seq<char>,
    written_at: u64,
    ttl: u64,
    now: nat,
)
    requires
        written_at + ttl <= u64::MAX,
    ensures
        now < written_at + ttl ==> visible(
            m.insert(key, (value, expiry(written_at, ttl))),
            key,
            now,
        ) == Some(value),
        now >= written_at + ttl ==> visible(
            m.insert(key, (value, expiry(written_at, ttl))),
            key,
            now,
        ) is None,
        forall|k: Seq<char>|
            k != key ==> visible(m.insert(key, (value, expiry(written_at, ttl))), k, now)
                == visible(m, k, now),
{
}

proof fn lemma_latest_skip(log: Seq<StoreEntry>, i: int, key: Seq<char>)
    requires
        0 <= i <= log.len(),
        forall|j: int| i <= j < log.len() ==> log[j].key@ != key,
    ensures
        latest(log).contains_key(key) == latest(log.take(i)).contains_key(key),
        latest(log).contains_key(key) ==> latest(log)[key] == latest(log.take(i))[key],
    decreases log.len() - i,
{
    if i < log.len() {
        lemma_latest_skip(log, i + 1, key);
        assert(log.take(i + 1).drop_last() =~= log.take(i));
    } else {
        assert(log.take(i) =~= log);
    }
}

impl ExpiringStore {
    /// The latest write to each key, expired or not.
    pub closed spec fn view(&self) -> Map<Seq<char>, (Seq<char>, nat)> {
        latest(self.entries@)
    }

    /// An empty store.
    pub fn new() -> (r: ExpiringStore)
        ensures
            r.view() == Map::<Seq<char>, (Seq<char>, nat)>::empty(),
    {
        ExpiringStore { entries: Vec::new() }
    }

    /// Writes `value` under `key` at time `now`, kept for `ttl_secs` seconds.
    /// A write to a key that is already present replaces it.
    pub fn set_ex(&mut self, key: String, value: String, ttl_secs: u64, now: u64)
        ensures
            final(self).view() == old(self).view().insert(key@, (value@, expiry(now, ttl_secs))),
    {
        let expires_at = now.saturating_add(ttl_secs);
        self.entries.push(StoreEntry { key, value, expires_at });
        proof {
            assert(self.entries@.drop_last() =~= old(self).entries@);
        }
    }

    /// Reads `key` at time `now`: its value while it has not expired, else `None`.
    pub fn get(&self, key: &String, now: u64) -> (r: Option<String>)
        ensures
            match r {
                Some(v) => visible(self.view(), key@, now as nat) == Some(v@),
                None => visible(self.view(), key@, now as nat) is None,
            },
    {
        let mut i: usize = self.entries.len();
        while i > 0
            invariant
                i <= self.entries.len(),
                forall|j: int| i <= j < self.entries@.len() ==> self.entries@[j].key@ != key@,
            decreases i,
        {
            let e = &self.entries[i - 1];
            if e.key == *key {
                proof {
                    lemma_latest_skip(self.entries@, i as int, key@);
                    assert(self.entries@.take(i as int).drop_last() =~= self.entries@.take(
                        i - 1,
                    ));
                    assert(self.entries@.take(i as int).last() == self.entries@[i - 1]);
                }
                if now < e.expires_at {
                    return Some(e.value.clone());
                } else {
                    return None;
                }
            }
            i = i - 1;
        }
        proof {
            lemma_latest_skip(self.entries@, 0, key@);
            assert(self.entries@.take(0) =~= Seq::<StoreEntry>::empty());
        }
        None
    }
}

} // verus!
