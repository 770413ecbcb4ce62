//! Counts of the instances of each kind of actor: how many were made, how
//! many live now, and the most that lived at one time.

use dashmap::DashMap;
use vstd::prelude::*;
use vstd::string::*;

verus! {

/// The concurrent map that holds the counts.
#[verifier::external_type_specification]
#[verifier::external_body]
#[verifier::reject_recursive_types(K)]
#[verifier::reject_recursive_types(V)]
#[verifier::reject_recursive_types(S)]
pub struct ExDashMap<K, V, S>(DashMap<K, V, S>);

/// What the map of counts holds: for each key the name of the kind, and
/// the numbers made, most alive at once, and alive now.
pub uninterp spec fn counts_held(map: DashMap<u64, (String, usize, usize, usize)>) -> Map<
    u64,
    (Seq<char>, usize, usize, usize),
>;

/// `DashMap::new`: a map without entries.
#[verifier::external_body]
fn counts_new() -> (counts: DashMap<u64, (String, usize, usize, usize)>)
    ensures
        forall|key: u64| !counts_held(counts).contains_key(key),
{
    DashMap::new()
}

/// `DashMap::get`: a copy of the entry under `key`, if there is one.
#[verifier::external_body]
fn counts_get(map: &DashMap<u64, (String, usize, usize, usize)>, key: u64) -> (found: Option<
    (String, usize, usize, usize),
>)
    ensures
        match found {
            Some(entry) => counts_held(*map).contains_key(key) && counts_held(*map)[key] == (
                entry.0@,
                entry.1,
                entry.2,
                entry.3,
            ),
            None => !counts_held(*map).contains_key(key),
        },
{
    map.get(&key).map(|entry| entry.value().clone())
}

/// `DashMap::insert`: afterwards `key` leads to `entry`, and every other
/// key to what it led to.
#[verifier::external_body]
fn counts_insert(
    map: &mut DashMap<u64, (String, usize, usize, usize)>,
    key: u64,
    entry: (String, usize, usize, usize),
)
    ensures
        counts_held(*final(map)) == counts_held(*old(map)).insert(
            key,
            (entry.0@, entry.1, entry.2, entry.3),
        ),
{
    map.insert(key, entry);
}

/// `DashMap::iter`: every entry once, in an order that nothing is claimed
/// of.
#[verifier::external_body]
fn counts_rows(map: &DashMap<u64, (String, usize, usize, usize)>) -> (rows: Vec<
    (u64, (String, usize, usize, usize)),
>)
    ensures
        forall|i: int|
            0 <= i < rows@.len() ==> counts_held(*map).contains_key((#[trigger] rows@[i]).0)
                && counts_held(*map)[rows@[i].0] == (
                rows@[i].1.0@,
                rows@[i].1.1,
                rows@[i].1.2,
                rows@[i].1.3,
            ),
        forall|key: u64| #[trigger]
            counts_held(*map).contains_key(key) ==> exists|i: int|
                0 <= i < rows@.len() && (#[trigger] rows@[i]).0 == key,
        forall|i: int, j: int|
            0 <= i < j < rows@.len() ==> (#[trigger] rows@[i]).0 != (#[trigger] rows@[j]).0,
{
    map.iter().map(|entry| (*entry.key(), entry.value().clone())).collect()
}

/// The counts of one kind of actor.
#[derive(Debug, Clone, PartialEq, Eq)]
pub struct Stats {
    pub name: String,
    /// How many were ever made.
    pub total: usize,
    /// The most that were alive at one time.
    pub max_live: usize,
    /// How many are alive now.
    pub live: usize,
}

impl Stats {
    /// What is held for these counts.
    pub open spec fn held(&self) -> (Seq<char>, usize, usize, usize) {
        (self.name@, self.total, self.max_live, self.live)
    }

    /// The counts of a kind of which none was made yet.
    pub fn new(name: &str) -> (stats: Self)
        ensures
            stats.held() == (name@, 0usize, 0usize, 0usize),
    {
        Stats { name: String::from_str(name), total: 0, max_live: 0, live: 0 }
    }
}

/// One more, from the largest number on to zero.
pub open spec fn up(count: usize) -> usize {
    if count == usize::MAX {
        0
    } else {
        (count + 1) as usize
    }
}

/// One less, from zero on to the largest number.
pub open spec fn down(count: usize) -> usize {
    if count == 0 {
        usize::MAX
    } else {
        (count - 1) as usize
    }
}

/// The counts after one more instance was made. The counters wrap, as
/// the additions of an atomic counter do.
pub open spec fn after_birth(before: Option<(Seq<char>, usize, usize, usize)>, name: Seq<char>) -> (
    Seq<char>,
    usize,
    usize,
    usize,
) {
    let (name, total, max_live, live) = match before {
        Some(entry) => entry,
        None => (name, 0usize, 0usize, 0usize),
    };
    let live = up(live);
    (
        name,
        up(total),
        if max_live < live {
            live
        } else {
            max_live
        },
        live,
    )
}

/// The counts after one instance was dropped.
pub open spec fn after_death(before: (Seq<char>, usize, usize, usize)) -> (
    Seq<char>,
    usize,
    usize,
    usize,
) {
    (before.0, before.1, before.2, down(before.3))
}

/// The counts of every kind of actor, by the key of the kind.
pub struct Registry {
    counts: DashMap<u64, (String, usize, usize, usize)>,
}

impl Registry {
    /// What is held for each key.
    pub closed spec fn stats(&self) -> Map<u64, (Seq<char>, usize, usize, usize)> {
        counts_held(self.counts)
    }

    /// A registry that knows no kind yet.
    pub fn new() -> (registry: Self)
        ensures
            registry.stats() == Map::<u64, (Seq<char>, usize, usize, usize)>::empty(),
    {
        let registry = Registry { counts: counts_new() };
        assert(registry.stats() =~= Map::<u64, (Seq<char>, usize, usize, usize)>::empty());
        registry
    }

    /// Some key leads to `entry`.
    pub open spec fn holds_entry(&self, entry: (Seq<char>, usize, usize, usize)) -> bool {
        exists|key: u64| #[trigger] self.stats().contains_key(key) && self.stats()[key] == entry
    }

    /// The counts of every kind, each once, in no order that could be
    /// relied on.
    pub fn snapshot(&self) -> (all: Vec<Stats>)
        ensures
            forall|i: int| 0 <= i < all@.len() ==> self.holds_entry((#[trigger] all@[i]).held()),
            forall|key: u64| #[trigger]
                self.stats().contains_key(key) ==> exists|i: int|
                    0 <= i < all@.len() && (#[trigger] all@[i]).held() == self.stats()[key],
    {
        let raw = counts_rows(&self.counts);
        let mut all: Vec<Stats> = Vec::new();
        let mut n: usize = 0;
        while n < raw.len()
            invariant
                n <= raw@.len(),
                all@.len() == n,
                forall|i: int|
                    0 <= i < n ==> (#[trigger] all@[i]).held() == (
                        raw@[i].1.0@,
                        raw@[i].1.1,
                        raw@[i].1.2,
                        raw@[i].1.3,
                    ),
            decreases raw@.len() - n,
        {
            let row = Stats {
                name: raw[n].1.0.clone(),
                total: raw[n].1.1,
                max_live: raw[n].1.2,
                live: raw[n].1.3,
            };
            all.push(row);
            n += 1;
        }
        proof {
            assert forall|i: int| 0 <= i < all@.len() implies self.holds_entry(
                (#[trigger] all@[i]).held(),
            ) by {
                let key = raw@[i].0;
                assert(self.stats().contains_key(key));
            }
            assert forall|key: u64| #[trigger] self.stats().contains_key(key) implies exists|i: int|
                0 <= i < all@.len() && (#[trigger] all@[i]).held() == self.stats()[key] by {
                let i = choose|i: int| 0 <= i < raw@.len() && (#[trigger] raw@[i]).0 == key;
                assert(all@[i].held() == self.stats()[key]);
            }
        }
        all
    }

    /// The counts under `key`.
    pub fn get(&self, key: u64) -> (found: Option<Stats>)
        ensures
            match found {
                Some(stats) => self.stats().contains_key(key) && self.stats()[key] == stats.held(),
                None => !self.stats().contains_key(key),
            },
    {
        match counts_get(&self.counts, key) {
            Some(entry) => Some(
                Stats { name: entry.0, total: entry.1, max_live: entry.2, live: entry.3 },
            ),
            None => None,
        }
    }
}

/// A guard for one live instance: making it counts the instance, and
/// releasing it counts the instance out.
#[derive(Debug)]
pub struct Count {
    key: u64,
}

impl Count {
    /// The key of the kind that the instance belongs to.
    pub closed spec fn key(&self) -> u64 {
        self.key
    }

    /// Counts one more instance of the kind under `key`. The name is kept
    /// when the kind is seen for the first time.
    pub fn new(registry: &mut Registry, key: u64, name: &str) -> (guard: Self)
        ensures
            guard.key() == key,
            final(registry).stats() == old(registry).stats().insert(
                key,
                after_birth(
                    if old(registry).stats().contains_key(key) {
                        Some(old(registry).stats()[key])
                    } else {
                        None
                    },
                    name@,
                ),
            ),
    {
        let entry = match counts_get(&registry.counts, key) {
            Some(entry) => entry,
            None => (String::from_str(name), 0, 0, 0),
        };
        let live = entry.3.wrapping_add(1);
        let max_live = if entry.2 < live {
            live
        } else {
            entry.2
        };
        counts_insert(&mut registry.counts, key, (entry.0, entry.1.wrapping_add(1), max_live, live));
        Count { key }
    }

    /// Counts the instance out. Where the kind is not known to the
    /// registry, nothing changes.
    pub fn release(self, registry: &mut Registry)
        ensures
            final(registry).stats() == if old(registry).stats().contains_key(self.key()) {
                old(registry).stats().insert(
                    self.key(),
                    after_death(old(registry).stats()[self.key()]),
                )
            } else {
                old(registry).stats()
            },
    {
        match counts_get(&registry.counts, self.key) {
            Some(entry) => {
                counts_insert(
                    &mut registry.counts,
                    self.key,
                    (entry.0, entry.1, entry.2, entry.3.wrapping_sub(1)),
                );
            },
            None => {},
        }
    }
}

} // verus!
