//! The identifier cache: team keys that were resolved before, with the one
//! time stamp that decides whether any of them may still be used.

use vstd::prelude::*;
use std::time::{Duration, SystemTimeError};
use crate::clock::{seconds_of, unix_now};
use crate::text::opt_text;

verus! {

/// The name of the cache file, which lies beside the configuration file.
pub const CACHE_FILE: &'static str = "cache.json";

/// How long a cache stays usable after its last change, in seconds.
pub const CACHE_TTL_SECS: u64 = 3600;

/// A team as the cache remembers it.
#[derive(Clone, Debug)]
pub struct CachedTeam {
    pub id: String,
    pub key: String,
    pub name: String,
}

impl CachedTeam {
    /// A copy with the same three texts.
    pub fn copy(&self) -> (r: CachedTeam)
        ensures
            r.id@ == self.id@,
            r.key@ == self.key@,
            r.name@ == self.name@,
    {
        CachedTeam { id: self.id.clone(), key: self.key.clone(), name: self.name.clone() }
    }
}

/// The cached teams, at most one for each key, and the time of the last change.
pub struct Cache {
    teams: Vec<CachedTeam>,
    timestamp: u64,
}

/// The identifier of the first entry with this key.
pub open spec fn lookup(entries: Seq<CachedTeam>, key: Seq<char>) -> Option<Seq<char>>
    decreases entries.len(),
{
    if entries.len() == 0 {
        None
    } else if entries[0].key@ == key {
        Some(entries[0].id@)
    } else {
        lookup(entries.drop_first(), key)
    }
}

/// The identifier of the last entry with this key.
pub open spec fn last_lookup(entries: Seq<CachedTeam>, key: Seq<char>) -> Option<Seq<char>>
    decreases entries.len(),
{
    if entries.len() == 0 {
        None
    } else if entries.last().key@ == key {
        Some(entries.last().id@)
    } else {
        last_lookup(entries.drop_last(), key)
    }
}

/// No key occurs twice.
pub open spec fn distinct_keys(entries: Seq<CachedTeam>) -> bool {
    forall|i: int, j: int| 0 <= i < j < entries.len() ==> entries[i].key@ != entries[j].key@
}

/// A cache stamped `stamp` is stale at `now` once more than the time to live
/// has passed since.
pub open spec fn stale(stamp: u64, now: u64) -> bool {
    now - stamp > CACHE_TTL_SECS
}

proof fn lemma_lookup_index(entries: Seq<CachedTeam>, key: Seq<char>, k: int)
    requires
        0 <= k < entries.len(),
        entries[k].key@ == key,
        forall|j: int| 0 <= j < k ==> entries[j].key@ != key,
    ensures
        lookup(entries, key) == Some(entries[k].id@),
    decreases k,
{
    if k > 0 {
        assert(entries.drop_first()[k - 1] == entries[k]);
        assert forall|j: int| 0 <= j < k - 1 implies entries.drop_first()[j].key@ != key by {
            assert(entries.drop_first()[j] == entries[j + 1]);
        }
        lemma_lookup_index(entries.drop_first(), key, k - 1);
    }
}

proof fn lemma_lookup_absent(entries: Seq<CachedTeam>, key: Seq<char>)
    requires
        forall|j: int| 0 <= j < entries.len() ==> entries[j].key@ != key,
    ensures
        lookup(entries, key) is None,
    decreases entries.len(),
{
    if entries.len() > 0 {
        assert forall|j: int| 0 <= j < entries.len() - 1 implies entries.drop_first()[j].key@
            != key by {
            assert(entries.drop_first()[j] == entries[j + 1]);
        }
        lemma_lookup_absent(entries.drop_first(), key);
    }
}

/// Replacing the entry at `k` changes the lookup of its key alone.
proof fn lemma_lookup_update(entries: Seq<CachedTeam>, k: int, team: CachedTeam, key: Seq<char>)
    requires
        0 <= k < entries.len(),
        entries[k].key@ == team.key@,
        key != team.key@,
    ensures
        lookup(entries.update(k, team), key) == lookup(entries, key),
    decreases entries.len(),
{
    let after = entries.update(k, team);
    if k == 0 {
        assert(after.drop_first() =~= entries.drop_first());
    } else {
        assert(after.drop_first() =~= entries.drop_first().update(k - 1, team));
        if entries[0].key@ != key {
            lemma_lookup_update(entries.drop_first(), k - 1, team, key);
        }
    }
}

/// Adding an entry at the end changes the lookup of an absent key alone.
proof fn lemma_lookup_push(entries: Seq<CachedTeam>, team: CachedTeam, key: Seq<char>)
    ensures
        lookup(entries.push(team), key) == (if lookup(entries, key) is Some {
            lookup(entries, key)
        } else if team.key@ == key {
            Some(team.id@)
        } else {
            None
        }),
    decreases entries.len(),
{
    if entries.len() == 0 {
        assert(entries.push(team).drop_first() =~= entries);
    } else {
        assert(entries.push(team).drop_first() =~= entries.drop_first().push(team));
        lemma_lookup_push(entries.drop_first(), team, key);
    }
}

impl Cache {
    /// The cached teams.
    pub closed spec fn entries(&self) -> Seq<CachedTeam> {
        self.teams@
    }

    /// The time of the last change, in seconds since the Unix epoch.
    pub closed spec fn stamp(&self) -> u64 {
        self.timestamp
    }

    /// The invariant of a cache: no key occurs twice.
    pub open spec fn wf(&self) -> bool {
        distinct_keys(self.entries())
    }

    /// The identifier cached for a key, whatever the age of the cache.
    pub open spec fn id_of(&self, key: Seq<char>) -> Option<Seq<char>> {
        lookup(self.entries(), key)
    }

    /// The identifier that may be used for a key at `now`: none once the cache is stale.
    pub open spec fn fresh_id(&self, key: Seq<char>, now: u64) -> Option<Seq<char>> {
        if stale(self.stamp(), now) {
            None
        } else {
            self.id_of(key)
        }
    }

    /// An empty cache.
    pub fn new() -> (c: Cache)
        ensures
            c.entries().len() == 0,
            c.stamp() == 0,
            c.wf(),
    {
        Cache { teams: Vec::new(), timestamp: 0 }
    }

    /// The position of the entry for `key`, or the number of entries where there is none.
    fn position(&self, key: &str) -> (k: usize)
        ensures
            k <= self.teams@.len(),
            k < self.teams@.len() ==> self.teams@[k as int].key@ == key@,
            forall|j: int| 0 <= j < k ==> self.teams@[j].key@ != key@,
    {
        let wanted = String::from_str(key);
        let mut i: usize = 0;
        while i < self.teams.len()
            invariant
                i <= self.teams@.len(),
                wanted@ == key@,
                forall|j: int| 0 <= j < i ==> self.teams@[j].key@ != key@,
            decreases self.teams@.len() - i,
        {
            if self.teams[i].key == wanted {
                return i;
            }
            i += 1;
        }
        i
    }

    /// Remembers a team under its key, in place of what was cached for that
    /// key, and stamps the cache with `now`.
    pub fn set_team_at(&mut self, team: CachedTeam, now: u64)
        ensures
            final(self).stamp() == now,
            final(self).id_of(team.key@) == Some(team.id@),
            forall|k: Seq<char>| k != team.key@ ==> final(self).id_of(k) == old(self).id_of(k),
            old(self).wf() ==> final(self).wf(),
            final(self).entries().len() == old(self).entries().len() + (if old(self).id_of(
                team.key@,
            ) is Some {
                0int
            } else {
                1int
            }),
    {
        let k = self.position(team.key.as_str());
        let ghost before = self.teams@;
        if k < self.teams.len() {
            proof {
                lemma_lookup_index(before, team.key@, k as int);
                lemma_lookup_index(before.update(k as int, team), team.key@, k as int);
                assert forall|q: Seq<char>| q != team.key@ implies lookup(
                    before.update(k as int, team),
                    q,
                ) == lookup(before, q) by {
                    lemma_lookup_update(before, k as int, team, q);
                }
            }
            self.teams.set(k, team);
        } else {
            proof {
                lemma_lookup_absent(before, team.key@);
                assert forall|q: Seq<char>| true implies lookup(before.push(team), q) == (
                if lookup(before, q) is Some {
                    lookup(before, q)
                } else if team.key@ == q {
                    Some(team.id@)
                } else {
                    None
                }) by {
                    lemma_lookup_push(before, team, q);
                }
            }
            self.teams.push(team);
        }
        self.timestamp = now;
    }

    /// Remembers a team under its key, in place of what was cached for that
    /// key, and stamps the cache with the current time: with what
    /// `seconds_of` makes of the clock's answer, whatever that is.
    pub fn set_team(&mut self, team: CachedTeam)
        ensures
            exists|elapsed: Result<Duration, SystemTimeError>|
                final(self).stamp() == seconds_of(elapsed),
            final(self).id_of(team.key@) == Some(team.id@),
            forall|k: Seq<char>| k != team.key@ ==> final(self).id_of(k) == old(self).id_of(k),
            old(self).wf() ==> final(self).wf(),
    {
        let now = unix_now();
        self.set_team_at(team, now);
    }

    /// The identifier held for a key, whatever the age of the cache.
    fn held_id(&self, key: &str) -> (r: Option<String>)
        ensures
            opt_text(r) == self.id_of(key@),
    {
        let k = self.position(key);
        if k < self.teams.len() {
            proof {
                lemma_lookup_index(self.teams@, key@, k as int);
            }
            Some(self.teams[k].id.clone())
        } else {
            proof {
                lemma_lookup_absent(self.teams@, key@);
            }
            None
        }
    }

    /// Whether the cache may no longer be used at `now`.
    pub fn is_stale(&self, now: u64) -> (r: bool)
        ensures
            r == stale(self.stamp(), now),
    {
        now > self.timestamp && now - self.timestamp > CACHE_TTL_SECS
    }

    /// The identifier that may be used for a key at `now`: none once more than
    /// the time to live has passed since the last change, whatever is cached.
    pub fn get(&self, key: &str, now: u64) -> (r: Option<String>)
        ensures
            opt_text(r) == self.fresh_id(key@, now),
            stale(self.stamp(), now) ==> r is None,
    {
        if self.is_stale(now) {
            None
        } else {
            self.held_id(key)
        }
    }

    /// The identifier that may be used for a key now: none once more than the
    /// time to live has passed since the last change, however lately the key
    /// itself was cached. The time is what `seconds_of` makes of the clock's
    /// answer, whatever that is.
    pub fn get_team_id(&self, key: &str) -> (r: Option<String>)
        ensures
            exists|elapsed: Result<Duration, SystemTimeError>|
                opt_text(r) == self.fresh_id(key@, seconds_of(elapsed)),
    {
        let now = unix_now();
        self.get(key, now)
    }

    /// The time of the last change, in seconds since the Unix epoch.
    pub fn timestamp(&self) -> (t: u64)
        ensures
            t == self.stamp(),
    {
        self.timestamp
    }

    /// The cached teams, for writing them out.
    pub fn teams(&self) -> (r: &Vec<CachedTeam>)
        ensures
            r@ == self.entries(),
    {
        &self.teams
    }

    /// The cache that a stored document describes: of two entries with one
    /// key the later one counts.
    pub fn from_parts(teams: Vec<CachedTeam>, timestamp: u64) -> (c: Cache)
        ensures
            c.stamp() == timestamp,
            c.wf(),
            forall|k: Seq<char>| c.id_of(k) == last_lookup(teams@, k),
    {
        let mut c = Cache { teams: Vec::new(), timestamp };
        let ghost all = teams@;
        let mut i: usize = 0;
        while i < teams.len()
            invariant
                i <= teams.len(),
                teams@ == all,
                c.wf(),
                c.stamp() == timestamp,
                forall|k: Seq<char>| c.id_of(k) == last_lookup(all.take(i as int), k),
            decreases teams.len() - i,
        {
            let team = teams[i].copy();
            proof {
                assert(all.take(i + 1).drop_last() =~= all.take(i as int));
            }
            c.set_team_at(team, timestamp);
            i += 1;
        }
        proof {
            assert(all.take(teams.len() as int) =~= all);
        }
        c
    }

    /// What `load` makes of a stored cache at `now`: nothing where there is
    /// none or where it is stale, else the stored cache as it is.
    pub fn loaded(stored: Option<Cache>, now: u64) -> (c: Cache)
        ensures
            match stored {
                Some(s) if !stale(s.stamp(), now) => c == s,
                _ => c.entries().len() == 0 && c.stamp() == 0,
            },
            stored matches Some(s) && s.wf() ==> c.wf(),
            stored is None ==> c.wf(),
    {
        match stored {
            Some(s) => {
                if s.is_stale(now) {
                    Cache::new()
                } else {
                    s
                }
            },
            None => Cache::new(),
        }
    }
}

} // verus!
