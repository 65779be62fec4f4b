//! The shared state of the filter: a deny table and a tracker table for each
//! address family, and the policy they are run with.
//!
//! The store is owned at the top level and handed by reference to the hooks
//! and to the control plane. Every operation reads or writes a single key;
//! nothing ties a read to the write that follows it, so where several
//! parties share one store the rate limit is approximate by design.

use crate::frame::Address;
use crate::rate::blocked_by;
use crate::rate::counted;
use crate::rate::rate_limit_step;
use crate::rate::Policy;
use crate::rate::RateLimit;
use crate::table::deny_added;
use crate::table::track_stored;
use crate::table::DenyTable;
use crate::table::TrackerTable;
use crate::wire::be_value;
use crate::wire::lemma_be_value_bound;
use crate::wire::lemma_be_value_injective;
use crate::wire::lemma_radix_widths;
use crate::wire::read_be;
use std::hash::Hash;
use vstd::prelude::*;
use vstd::std_specs::hash::obeys_key_model;

verus! {

broadcast use vstd::std_specs::hash::group_hash_axioms;

/// The number of entries each table of the stock deployment is made for.
pub const MAX_ENTRIES: u32 = 1024;

/// The counter that `entries` holds for `key`, if any.
pub open spec fn lookup<K>(entries: Map<K, RateLimit>, key: K) -> Option<RateLimit> {
    if entries.contains_key(key) {
        Some(entries[key])
    } else {
        None
    }
}

/// The tables of one address family, as mathematical values.
#[verifier::reject_recursive_types(K)]
pub struct FamilyView<K> {
    /// The blocked addresses.
    pub deny: Set<K>,
    /// The number of entries the deny table was made for.
    pub deny_max: u32,
    /// The counter of each tracked address.
    pub track: Map<K, RateLimit>,
    /// The number of entries the tracker table was made for.
    pub track_max: u32,
}

impl<K> FamilyView<K> {
    /// The family after one passing packet from `key` at `now`: the counter
    /// of `key` is stepped, and `key` is blocked if that step took it over
    /// the threshold. A full table stays as it is.
    pub open spec fn observed(self, key: K, now: u64, policy: Policy) -> FamilyView<K> {
        FamilyView {
            deny: if blocked_by(lookup(self.track, key), now, policy) {
                deny_added(self.deny, self.deny_max, key)
            } else {
                self.deny
            },
            deny_max: self.deny_max,
            track: track_stored(
                self.track,
                self.track_max,
                key,
                counted(lookup(self.track, key), now, policy),
            ),
            track_max: self.track_max,
        }
    }
}

/// The two tables of one address family.
pub struct Family<K> {
    /// The deny table. The control plane reaches it directly.
    pub blocklist: DenyTable<K>,
    /// The tracker table, private to the ingress hook.
    pub tracker: TrackerTable<K>,
}

impl<K: Copy + Eq + Hash> Family<K> {
    /// The family's tables as mathematical values.
    pub open spec fn view(&self) -> FamilyView<K> {
        FamilyView {
            deny: self.blocklist@,
            deny_max: self.blocklist.capacity(),
            track: self.tracker@,
            track_max: self.tracker.capacity(),
        }
    }

    /// Both tables are well formed.
    pub open spec fn wf(&self) -> bool {
        self.blocklist.wf() && self.tracker.wf()
    }

    /// Two empty tables with the given capacities.
    pub fn new(deny_max: u32, track_max: u32) -> (f: Self)
        requires
            obeys_key_model::<K>(),
        ensures
            f.wf(),
            f@ == (FamilyView::<K> {
                deny: Set::empty(),
                deny_max,
                track: Map::empty(),
                track_max,
            }),
    {
        Family { blocklist: DenyTable::new(deny_max), tracker: TrackerTable::new(track_max) }
    }

    /// Whether `key` is in the deny table.
    pub fn blocks(&self, key: &K) -> (b: bool)
        requires
            self.wf(),
        ensures
            b == self@.deny.contains(*key),
    {
        self.blocklist.contains(key)
    }

    /// Empties both tables of the family. Their capacities stay.
    pub fn teardown(&mut self)
        requires
            old(self).wf(),
        ensures
            final(self).wf(),
            final(self)@ == (FamilyView::<K> {
                deny: Set::empty(),
                deny_max: old(self)@.deny_max,
                track: Map::empty(),
                track_max: old(self)@.track_max,
            }),
    {
        self.blocklist.clear();
        self.tracker.clear();
    }

    /// Counts one passing packet from `key` at `now` and blocks `key` if the
    /// count within the window has gone over the threshold.
    ///
    /// The counter is read, stepped and written back in three separate
    /// moves. A sender not yet tracked is left untracked when the tracker is
    /// full, and a sender over the threshold is left unblocked when the deny
    /// table is full.
    pub fn check_rate_limit(&mut self, key: &K, now: u64, policy: Policy)
        requires
            old(self).wf(),
        ensures
            final(self).wf(),
            final(self)@ == old(self)@.observed(*key, now, policy),
    {
        let seen = self.tracker.get(key);
        let step = rate_limit_step(seen, now, policy);
        self.tracker.store(*key, step.entry);
        if step.block {
            let _ = self.blocklist.insert(*key);
        }
    }
}

/// The whole store as mathematical values.
pub struct StoreView {
    /// The IPv4 tables.
    pub v4: FamilyView<u32>,
    /// The IPv6 tables.
    pub v6: FamilyView<u128>,
    /// The rate limit in force.
    pub policy: Policy,
}

impl StoreView {
    /// Whether `address` is in the deny table of its family.
    pub open spec fn denies(self, address: Address) -> bool {
        match address {
            Address::V4(ip) => self.v4.deny.contains(ip),
            Address::V6(ip) => self.v6.deny.contains(ip),
        }
    }

    /// The counter kept for `address`, if any.
    pub open spec fn counter(self, address: Address) -> Option<RateLimit> {
        match address {
            Address::V4(ip) => lookup(self.v4.track, ip),
            Address::V6(ip) => lookup(self.v6.track, ip),
        }
    }

    /// The store after one passing packet from `address` at `now`. Only the
    /// tables of the address's own family change.
    pub open spec fn observed(self, address: Address, now: u64) -> StoreView {
        match address {
            Address::V4(ip) => StoreView {
                v4: self.v4.observed(ip, now, self.policy),
                v6: self.v6,
                policy: self.policy,
            },
            Address::V6(ip) => StoreView {
                v4: self.v4,
                v6: self.v6.observed(ip, now, self.policy),
                policy: self.policy,
            },
        }
    }
}

/// The number under which an IPv6 address is filed: its sixteen bytes read
/// in network order.
pub open spec fn ipv6_key_of(ip: [u8; 16]) -> u128 {
    be_value(ip@) as u128
}

/// Different IPv6 addresses are filed under different numbers.
pub proof fn lemma_ipv6_key_injective(a: [u8; 16], b: [u8; 16])
    requires
        ipv6_key_of(a) == ipv6_key_of(b),
    ensures
        a == b,
{
    lemma_be_value_bound(a@);
    lemma_be_value_bound(b@);
    lemma_radix_widths();
    lemma_be_value_injective(a@, b@);
    assert(a@ =~= b@);
}

/// Computes the number under which an IPv6 address is filed.
pub fn ipv6_key(ip: &[u8; 16]) -> (key: u128)
    ensures
        key == ipv6_key_of(*ip),
{
    let bytes = ip.as_slice();
    proof {
        assert(bytes@.subrange(0, 16) =~= ip@);
        lemma_be_value_bound(ip@);
        lemma_radix_widths();
    }
    read_be(bytes, 0, 16)
}

/// The shared state store.
pub struct Store {
    /// The IPv4 tables.
    pub v4: Family<u32>,
    /// The IPv6 tables.
    pub v6: Family<u128>,
    /// The rate limit in force, fixed when the store is made.
    pub policy: Policy,
}

impl Store {
    /// The store as mathematical values.
    pub open spec fn view(&self) -> StoreView {
        StoreView { v4: self.v4@, v6: self.v6@, policy: self.policy }
    }

    /// All four tables are well formed.
    pub open spec fn wf(&self) -> bool {
        self.v4.wf() && self.v6.wf()
    }

    /// An empty store whose four tables each hold at most `max_entries`
    /// addresses.
    pub fn new(max_entries: u32, policy: Policy) -> (s: Self)
        ensures
            s.wf(),
            s@ == (StoreView {
                v4: FamilyView {
                    deny: Set::empty(),
                    deny_max: max_entries,
                    track: Map::empty(),
                    track_max: max_entries,
                },
                v6: FamilyView {
                    deny: Set::empty(),
                    deny_max: max_entries,
                    track: Map::empty(),
                    track_max: max_entries,
                },
                policy,
            }),
    {
        Store {
            v4: Family::new(max_entries, max_entries),
            v6: Family::new(max_entries, max_entries),
            policy,
        }
    }

    /// Whether `address` is blocked.
    pub fn blocks(&self, address: Address) -> (b: bool)
        requires
            self.wf(),
        ensures
            b == self@.denies(address),
    {
        match address {
            Address::V4(ip) => self.v4.blocks(&ip),
            Address::V6(ip) => self.v6.blocks(&ip),
        }
    }

    /// Counts one passing packet from `address` at `now` and blocks the
    /// address if it has gone over the threshold.
    pub fn check_rate_limit(&mut self, address: Address, now: u64)
        requires
            old(self).wf(),
        ensures
            final(self).wf(),
            final(self)@ == old(self)@.observed(address, now),
    {
        match address {
            Address::V4(ip) => self.v4.check_rate_limit(&ip, now, self.policy),
            Address::V6(ip) => self.v6.check_rate_limit(&ip, now, self.policy),
        }
    }
}

/// Whether the IPv4 address `ip` is blocked.
pub fn block_ipv4(store: &Store, ip: u32) -> (b: bool)
    requires
        store.wf(),
    ensures
        b == store@.denies(Address::V4(ip)),
{
    store.v4.blocks(&ip)
}

/// Whether the IPv6 address `ip` is blocked.
pub fn block_ipv6(store: &Store, ip: [u8; 16]) -> (b: bool)
    requires
        store.wf(),
    ensures
        b == store@.denies(Address::V6(ipv6_key_of(ip))),
{
    let key = ipv6_key(&ip);
    store.v6.blocks(&key)
}

/// Counts one passing packet from the IPv4 address `ip` at `now` and blocks
/// the address if it has gone over the threshold.
pub fn check_rate_limit_v4(store: &mut Store, ip: &u32, now: u64)
    requires
        old(store).wf(),
    ensures
        final(store).wf(),
        final(store)@ == old(store)@.observed(Address::V4(*ip), now),
{
    store.v4.check_rate_limit(ip, now, store.policy);
}

/// Counts one passing packet from the IPv6 address `ip` at `now` and blocks
/// the address if it has gone over the threshold.
pub fn check_rate_limit_v6(store: &mut Store, ip: &[u8; 16], now: u64)
    requires
        old(store).wf(),
    ensures
        final(store).wf(),
        final(store)@ == old(store)@.observed(Address::V6(ipv6_key_of(*ip)), now),
{
    let key = ipv6_key(ip);
    store.v6.check_rate_limit(&key, now, store.policy);
}

} // verus!
