//! An in-memory model of the ephemeral key-value store that holds session
//! tokens: string bindings with an optional expiry, read against the
//! store's own clock.
use vstd::prelude::*;

verus! {

/// One binding in the key-value store.
pub struct RedisEntry {
    pub key: String,
    pub value: String,
    pub deadline: Option<u64>,
}

/// `a + b`, capped at the largest representable value.
pub open spec fn sat_add64(a: u64, b: u64) -> u64 {
    if a + b > u64::MAX {
        u64::MAX
    } else {
        (a + b) as u64
    }
}

/// The latest binding for `key` in `s`.
pub open spec fn entry_lookup(s: Seq<RedisEntry>, key: Seq<char>) -> Option<RedisEntry>
    decreases s.len(),
{
    if s.len() == 0 {
        None
    } else if s.last().key@ == key {
        Some(s.last())
    } else {
        entry_lookup(s.drop_last(), key)
    }
}

/// The key-value store, with its clock in seconds.
///
/// A write may carry an expiry; the store itself drops such a binding once
/// its clock reaches the deadline, without any explicit deletion.
pub struct RedisHandler {
    pub entries: Vec<RedisEntry>,
    pub clock: u64,
}

impl RedisHandler {
    /// The store as a map from key to value and optional deadline.
    pub open spec fn map_view(&self) -> Map<Seq<char>, (Seq<char>, Option<u64>)> {
        Map::new(
            |k: Seq<char>| entry_lookup(self.entries@, k) is Some,
            |k: Seq<char>|
                (
                    entry_lookup(self.entries@, k).unwrap().value@,
                    entry_lookup(self.entries@, k).unwrap().deadline,
                ),
        )
    }

    /// The value bound to `key`, provided its deadline (if any) lies
    /// strictly beyond the current clock.
    pub open spec fn live_value(&self, key: Seq<char>) -> Option<Seq<char>> {
        if self.map_view().contains_key(key) {
            let (v, dl) = self.map_view()[key];
            match dl {
                None => Some(v),
                Some(d) => if self.clock < d {
                    Some(v)
                } else {
                    None
                },
            }
        } else {
            None
        }
    }

    /// An empty store with its clock at zero.
    pub fn new() -> (r: Self)
        ensures
            r.map_view() == Map::<Seq<char>, (Seq<char>, Option<u64>)>::empty(),
            r.clock == 0,
    {
        let r = RedisHandler { entries: Vec::new(), clock: 0 };
        proof {
            assert(r.map_view() =~= Map::<Seq<char>, (Seq<char>, Option<u64>)>::empty());
        }
        r
    }

    /// Binds `key` to `value`. With `expiry` of `e` seconds, the binding
    /// lapses once the clock has advanced `e` seconds from now; without,
    /// it never lapses.
    pub fn set_key(&mut self, key: &String, value: &String, expiry: Option<u64>)
        ensures
            final(self).clock == old(self).clock,
            final(self).map_view() == old(self).map_view().insert(
                key@,
                (
                    value@,
                    match expiry {
                        None => None,
                        Some(e) => Some(sat_add64(old(self).clock, e)),
                    },
                ),
            ),
    {
        let deadline = match expiry {
            None => None,
            Some(e) => if e > u64::MAX - self.clock {
                Some(u64::MAX)
            } else {
                Some(self.clock + e)
            },
        };
        let ghost prev = *self;
        self.entries.push(RedisEntry { key: key.clone(), value: value.clone(), deadline });
        proof {
            assert(self.entries@.drop_last() =~= prev.entries@);
            assert(self.map_view() =~= prev.map_view().insert(
                key@,
                (
                    value@,
                    match expiry {
                        None => None,
                        Some(e) => Some(sat_add64(prev.clock, e)),
                    },
                ),
            ));
        }
    }

    /// The live value bound to `key`: nothing for an unknown key, and
    /// nothing for one whose binding has lapsed.
    pub fn get_key(&self, key: &String) -> (r: Option<String>)
        ensures
            match r {
                Some(v) => self.live_value(key@) == Some(v@),
                None => self.live_value(key@) is None,
            },
    {
        let mut i: usize = self.entries.len();
        proof {
            assert(self.entries@.take(i as int) =~= self.entries@);
        }
        while i > 0
            invariant
                i <= self.entries@.len(),
                entry_lookup(self.entries@, key@) == entry_lookup(
                    self.entries@.take(i as int),
                    key@,
                ),
            decreases i,
        {
            i -= 1;
            proof {
                assert(self.entries@.take(i + 1).last() == self.entries@[i as int]);
                assert(self.entries@.take(i + 1).drop_last() =~= self.entries@.take(i as int));
            }
            if self.entries[i].key == *key {
                let hit = match self.entries[i].deadline {
                    None => true,
                    Some(d) => self.clock < d,
                };
                if hit {
                    return Some(self.entries[i].value.clone());
                } else {
                    return None;
                }
            }
        }
        proof {
            assert(self.entries@.take(0) =~= Seq::<RedisEntry>::empty());
        }
        None
    }

    /// Moves the clock forward by `secs` seconds; the bindings themselves
    /// are untouched, but those whose deadline is reached lapse.
    pub fn advance_clock(&mut self, secs: u64)
        ensures
            final(self).clock == sat_add64(old(self).clock, secs),
            final(self).map_view() == old(self).map_view(),
    {
        if secs > u64::MAX - self.clock {
            self.clock = u64::MAX;
        } else {
            self.clock = self.clock + secs;
        }
        proof {
            assert(self.map_view() =~= old(self).map_view());
        }
    }
}

} // verus!
