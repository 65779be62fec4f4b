//! The control plane's side of the deny tables: turning the addresses that a
//! name resolved to into additions and removals.
//!
//! A batch is applied address by address and never rolled back. What
//! happened to each address is handed back in order.

use crate::frame::Address;
use crate::store::Store;
use crate::store::StoreView;
use crate::table::deny_added;
use crate::table::has_room;
use crate::table::CapacityError;
use crate::table::DenyTable;
use std::hash::Hash;
use vstd::prelude::*;

verus! {

/// What to do with each address of a batch.
#[derive(Clone, Copy, Debug, PartialEq, Eq, Structural)]
pub enum Mode {
    /// Block the address.
    Add,
    /// Unblock the address.
    Remove,
}

/// What was done for one address.
#[derive(Clone, Copy, Debug, PartialEq, Eq, Structural)]
pub enum Applied {
    /// The address is now blocked.
    Added,
    /// The address was blocked and no longer is.
    Removed,
    /// The address was to be unblocked and was not blocked to begin with.
    AlreadyAbsent,
}

/// Why a name gave no addresses to work with.
#[derive(Clone, Copy, Debug, PartialEq, Eq, Structural)]
pub enum ResolveError {
    /// The name service answered, with no address of either family.
    NoAddresses,
    /// The name service could not be asked or did not answer.
    NameService,
}

/// Marks a lookup that failed before any answer came.
#[derive(Clone, Copy, Debug, PartialEq, Eq, Structural)]
pub struct NameServiceError;

/// The addresses of a name, by family. A family without addresses is `None`.
#[derive(Debug)]
pub struct Resolved {
    /// The IPv4 addresses, in the order of the answer.
    pub v4: Option<Vec<u32>>,
    /// The IPv6 addresses, in the order of the answer.
    pub v6: Option<Vec<u128>>,
}

/// What happened to each address of an update, by family and in order.
#[derive(Debug)]
pub struct UpdateReport {
    /// One entry for each IPv4 address.
    pub v4: Vec<Result<Applied, CapacityError>>,
    /// One entry for each IPv6 address.
    pub v6: Vec<Result<Applied, CapacityError>>,
}

/// The IPv4 addresses among `answer`, in order.
pub open spec fn v4_among(answer: Seq<Address>) -> Seq<u32>
    decreases answer.len(),
{
    if answer.len() == 0 {
        Seq::empty()
    } else {
        match answer.last() {
            Address::V4(ip) => v4_among(answer.drop_last()).push(ip),
            Address::V6(_) => v4_among(answer.drop_last()),
        }
    }
}

/// The IPv6 addresses among `answer`, in order.
pub open spec fn v6_among(answer: Seq<Address>) -> Seq<u128>
    decreases answer.len(),
{
    if answer.len() == 0 {
        Seq::empty()
    } else {
        match answer.last() {
            Address::V4(_) => v6_among(answer.drop_last()),
            Address::V6(ip) => v6_among(answer.drop_last()).push(ip),
        }
    }
}

impl Resolved {
    /// The IPv4 addresses; none where the field is `None`.
    pub open spec fn v4_view(&self) -> Seq<u32> {
        match self.v4 {
            Some(list) => list@,
            None => Seq::empty(),
        }
    }

    /// The IPv6 addresses; none where the field is `None`.
    pub open spec fn v6_view(&self) -> Seq<u128> {
        match self.v6 {
            Some(list) => list@,
            None => Seq::empty(),
        }
    }

    /// A family is `None` exactly if it has no address, and at least one
    /// family has one.
    pub open spec fn wf(&self) -> bool {
        &&& self.v4 is Some <==> self.v4_view().len() > 0
        &&& self.v6 is Some <==> self.v6_view().len() > 0
        &&& self.v4 is Some || self.v6 is Some
    }
}

/// The keys of a deny table after `mode` was applied to `key`.
pub open spec fn applied_one<K>(keys: Set<K>, max_entries: u32, key: K, mode: Mode) -> Set<K> {
    match mode {
        Mode::Add => deny_added(keys, max_entries, key),
        Mode::Remove => keys.remove(key),
    }
}

/// What applying `mode` to `key` reports.
pub open spec fn outcome_of<K>(keys: Set<K>, max_entries: u32, key: K, mode: Mode) -> Result<
    Applied,
    CapacityError,
> {
    match mode {
        Mode::Add => if has_room(keys, max_entries, key) {
            Ok(Applied::Added)
        } else {
            Err(CapacityError { max_entries })
        },
        Mode::Remove => if keys.contains(key) {
            Ok(Applied::Removed)
        } else {
            Ok(Applied::AlreadyAbsent)
        },
    }
}

/// What is reported for one address once the table has answered. `done`
/// says whether the table took the address that was to be added, or held the
/// address that was to be removed.
pub open spec fn reported(mode: Mode, done: bool, max_entries: u32) -> Result<
    Applied,
    CapacityError,
> {
    match mode {
        Mode::Add => if done {
            Ok(Applied::Added)
        } else {
            Err(CapacityError { max_entries })
        },
        Mode::Remove => if done {
            Ok(Applied::Removed)
        } else {
            Ok(Applied::AlreadyAbsent)
        },
    }
}

/// The keys of a deny table after `mode` was applied to each key of `batch`
/// in turn.
pub open spec fn applied<K>(keys: Set<K>, max_entries: u32, batch: Seq<K>, mode: Mode) -> Set<K>
    decreases batch.len(),
{
    if batch.len() == 0 {
        keys
    } else {
        applied_one(
            applied(keys, max_entries, batch.drop_last(), mode),
            max_entries,
            batch.last(),
            mode,
        )
    }
}

/// What is reported for the key at `index` of `batch`: the outcome on the
/// table as the keys before it have left it.
pub open spec fn outcome_at<K>(
    keys: Set<K>,
    max_entries: u32,
    batch: Seq<K>,
    mode: Mode,
    index: int,
) -> Result<Applied, CapacityError> {
    outcome_of(applied(keys, max_entries, batch.take(index), mode), max_entries, batch[index], mode)
}

/// What is reported for a whole batch.
pub open spec fn outcomes<K>(keys: Set<K>, max_entries: u32, batch: Seq<K>, mode: Mode) -> Seq<
    Result<Applied, CapacityError>,
> {
    Seq::new(batch.len(), |index: int| outcome_at(keys, max_entries, batch, mode, index))
}

/// The store after an update of its deny tables.
pub open spec fn updated(s: StoreView, v4: Seq<u32>, v6: Seq<u128>, mode: Mode) -> StoreView {
    StoreView {
        v4: crate::store::FamilyView {
            deny: applied(s.v4.deny, s.v4.deny_max, v4, mode),
            deny_max: s.v4.deny_max,
            track: s.v4.track,
            track_max: s.v4.track_max,
        },
        v6: crate::store::FamilyView {
            deny: applied(s.v6.deny, s.v6.deny_max, v6, mode),
            deny_max: s.v6.deny_max,
            track: s.v6.track,
            track_max: s.v6.track_max,
        },
        policy: s.policy,
    }
}

/// Sorts the answer of a lookup by family.
///
/// A lookup that failed is a name service error. An answer without any
/// address is a resolution error. Otherwise each family that has addresses
/// gets them in the order of the answer, and a family without any is `None`.
pub fn resolve_all_ips(lookup: Result<Vec<Address>, NameServiceError>) -> (r: Result<
    Resolved,
    ResolveError,
>)
    ensures
        lookup is Err ==> r == Err::<Resolved, ResolveError>(ResolveError::NameService),
        lookup is Ok && lookup.unwrap()@.len() == 0 ==> r == Err::<Resolved, ResolveError>(
            ResolveError::NoAddresses,
        ),
        lookup is Ok && lookup.unwrap()@.len() > 0 ==> r is Ok && r.unwrap().wf()
            && r.unwrap().v4_view() == v4_among(lookup.unwrap()@) && r.unwrap().v6_view()
            == v6_among(lookup.unwrap()@),
{
    let answer = match lookup {
        Ok(answer) => answer,
        Err(_) => {
            return Err(ResolveError::NameService);
        },
    };
    let mut v4: Vec<u32> = Vec::new();
    let mut v6: Vec<u128> = Vec::new();
    let mut i: usize = 0;
    while i < answer.len()
        invariant
            i <= answer@.len(),
            v4@ == v4_among(answer@.take(i as int)),
            v6@ == v6_among(answer@.take(i as int)),
            v4@.len() + v6@.len() == i,
        decreases answer@.len() - i,
    {
        proof {
            assert(answer@.take(i + 1).drop_last() =~= answer@.take(i as int));
        }
        match answer[i] {
            Address::V4(ip) => v4.push(ip),
            Address::V6(ip) => v6.push(ip),
        }
        i += 1;
    }
    proof {
        assert(answer@.take(i as int) =~= answer@);
    }
    if v4.len() == 0 && v6.len() == 0 {
        Err(ResolveError::NoAddresses)
    } else {
        let some_v4 = if v4.len() == 0 {
            None
        } else {
            Some(v4)
        };
        let some_v6 = if v6.len() == 0 {
            None
        } else {
            Some(v6)
        };
        Ok(Resolved { v4: some_v4, v6: some_v6 })
    }
}

/// Turns the answer of a deny table into the report for one address: an
/// addition that was not taken is a capacity error, a removal that found
/// nothing is reported as already absent.
pub fn outcome(mode: Mode, done: bool, max_entries: u32) -> (r: Result<Applied, CapacityError>)
    ensures
        r == reported(mode, done, max_entries),
{
    match mode {
        Mode::Add => if done {
            Ok(Applied::Added)
        } else {
            Err(CapacityError { max_entries })
        },
        Mode::Remove => if done {
            Ok(Applied::Removed)
        } else {
            Ok(Applied::AlreadyAbsent)
        },
    }
}

/// Applies `mode` to one address of an open deny table.
///
/// Adding fails with a capacity error, and changes nothing, when the table is
/// full and does not hold the address. Removing an address that is not there
/// is no failure: it is reported as already absent.
pub fn apply<K: Copy + Eq + Hash>(table: &mut DenyTable<K>, key: K, mode: Mode) -> (r: Result<
    Applied,
    CapacityError,
>)
    requires
        old(table).wf(),
    ensures
        final(table).wf(),
        final(table).capacity() == old(table).capacity(),
        final(table)@ == applied_one(old(table)@, old(table).capacity(), key, mode),
        r == outcome_of(old(table)@, old(table).capacity(), key, mode),
{
    let max_entries = table.max_entries();
    let done = match mode {
        Mode::Add => table.insert(key).is_ok(),
        Mode::Remove => table.remove(&key),
    };
    outcome(mode, done, max_entries)
}

/// Applies `mode` to each address of `batch` in turn and reports, in order,
/// what happened to each. A failure on one address does not stop the batch
/// and undoes nothing.
pub fn apply_all<K: Copy + Eq + Hash>(table: &mut DenyTable<K>, batch: &Vec<K>, mode: Mode) -> (r:
    Vec<Result<Applied, CapacityError>>)
    requires
        old(table).wf(),
    ensures
        final(table).wf(),
        final(table).capacity() == old(table).capacity(),
        final(table)@ == applied(old(table)@, old(table).capacity(), batch@, mode),
        r@ == outcomes(old(table)@, old(table).capacity(), batch@, mode),
{
    let ghost start = table@;
    let ghost max = table.capacity();
    let mut out: Vec<Result<Applied, CapacityError>> = Vec::new();
    let mut i: usize = 0;
    while i < batch.len()
        invariant
            i <= batch@.len(),
            table.wf(),
            table.capacity() == max,
            table@ == applied(start, max, batch@.take(i as int), mode),
            out@.len() == i,
            forall|j: int| 0 <= j < i ==> out@[j] == outcome_at(start, max, batch@, mode, j),
        decreases batch@.len() - i,
    {
        proof {
            assert(batch@.take(i + 1).drop_last() =~= batch@.take(i as int));
        }
        let done = apply(table, batch[i], mode);
        out.push(done);
        i += 1;
    }
    proof {
        assert(batch@.take(i as int) =~= batch@);
        assert(out@ =~= outcomes(start, max, batch@, mode));
    }
    out
}

/// Whether every address of a report was dealt with.
pub open spec fn all_ok(report: Seq<Result<Applied, CapacityError>>) -> bool {
    forall|i: int| 0 <= i < report.len() ==> (#[trigger] report[i]) is Ok
}

/// Whether every address of `report` was dealt with.
pub fn succeeded(report: &Vec<Result<Applied, CapacityError>>) -> (b: bool)
    ensures
        b == all_ok(report@),
{
    let mut i: usize = 0;
    while i < report.len()
        invariant
            i <= report@.len(),
            forall|j: int| 0 <= j < i ==> (#[trigger] report@[j]) is Ok,
        decreases report@.len() - i,
    {
        if report[i].is_err() {
            return false;
        }
        i += 1;
    }
    true
}

/// The exit status of an update: zero if every address of both families was
/// dealt with, one if any was not.
pub fn exit_status(report: &UpdateReport) -> (code: u8)
    ensures
        code == (if all_ok(report.v4@) && all_ok(report.v6@) {
            0u8
        } else {
            1u8
        }),
{
    if succeeded(&report.v4) && succeeded(&report.v6) {
        0
    } else {
        1
    }
}

/// Applies `mode` to every resolved address, each in the deny table of its
/// family, the IPv4 addresses first.
pub fn update(store: &mut Store, resolved: &Resolved, mode: Mode) -> (report: UpdateReport)
    requires
        old(store).wf(),
    ensures
        final(store).wf(),
        final(store)@ == updated(old(store)@, resolved.v4_view(), resolved.v6_view(), mode),
        report.v4@ == outcomes(
            old(store)@.v4.deny,
            old(store)@.v4.deny_max,
            resolved.v4_view(),
            mode,
        ),
        report.v6@ == outcomes(
            old(store)@.v6.deny,
            old(store)@.v6.deny_max,
            resolved.v6_view(),
            mode,
        ),
{
    let v4 = match &resolved.v4 {
        Some(list) => apply_all(&mut store.v4.blocklist, list, mode),
        None => {
            proof {
                assert(outcomes(
                    store@.v4.deny,
                    store@.v4.deny_max,
                    Seq::<u32>::empty(),
                    mode,
                ) =~= Seq::empty());
            }
            Vec::new()
        },
    };
    let v6 = match &resolved.v6 {
        Some(list) => apply_all(&mut store.v6.blocklist, list, mode),
        None => {
            proof {
                assert(outcomes(
                    store@.v6.deny,
                    store@.v6.deny_max,
                    Seq::<u128>::empty(),
                    mode,
                ) =~= Seq::empty());
            }
            Vec::new()
        },
    };
    UpdateReport { v4, v6 }
}

/// Removing an address that is not blocked succeeds, is reported as
/// already absent, and leaves the table as it was.
pub proof fn lemma_remove_absent<K>(keys: Set<K>, max_entries: u32, key: K)
    requires
        !keys.contains(key),
    ensures
        outcome_of(keys, max_entries, key, Mode::Remove) == Ok::<Applied, CapacityError>(
            Applied::AlreadyAbsent,
        ),
        applied_one(keys, max_entries, key, Mode::Remove) == keys,
{
    assert(keys.remove(key) =~= keys);
}

/// Adding to a full table an address that it does not hold fails with a
/// capacity error and leaves every entry as it was.
pub proof fn lemma_add_to_full<K>(keys: Set<K>, max_entries: u32, key: K)
    requires
        !keys.contains(key),
        keys.len() >= max_entries,
    ensures
        outcome_of(keys, max_entries, key, Mode::Add) == Err::<Applied, CapacityError>(
            CapacityError { max_entries },
        ),
        applied_one(keys, max_entries, key, Mode::Add) == keys,
{
}

/// After a batch was removed, the table holds what it held before, less the
/// addresses of the batch.
pub proof fn lemma_removed_batch<K>(keys: Set<K>, max_entries: u32, batch: Seq<K>, key: K)
    ensures
        applied(keys, max_entries, batch, Mode::Remove).contains(key) <==> (keys.contains(key)
            && !batch.contains(key)),
    decreases batch.len(),
{
    if batch.len() > 0 {
        lemma_removed_batch(keys, max_entries, batch.drop_last(), key);
        lemma_contains_last(batch, key);
    }
}

/// After a batch was added, the table holds all it held before, and beyond
/// that only addresses of the batch.
pub proof fn lemma_added_batch<K>(keys: Set<K>, max_entries: u32, batch: Seq<K>, key: K)
    ensures
        keys.contains(key) ==> applied(keys, max_entries, batch, Mode::Add).contains(key),
        applied(keys, max_entries, batch, Mode::Add).contains(key) ==> (keys.contains(key)
            || batch.contains(key)),
    decreases batch.len(),
{
    if batch.len() > 0 {
        lemma_added_batch(keys, max_entries, batch.drop_last(), key);
        lemma_contains_last(batch, key);
    }
}

/// A sequence holds a value if it is its last element or stands before it.
proof fn lemma_contains_last<K>(batch: Seq<K>, key: K)
    requires
        batch.len() > 0,
    ensures
        batch.contains(key) <==> (batch.drop_last().contains(key) || batch.last() == key),
{
    if batch.contains(key) {
        let i = choose|i: int| 0 <= i < batch.len() && batch[i] == key;
        if i < batch.len() - 1 {
            assert(batch.drop_last()[i] == key);
        }
    }
    if batch.drop_last().contains(key) {
        let i = choose|i: int| 0 <= i < batch.drop_last().len() && batch.drop_last()[i] == key;
        assert(batch[i] == key);
    }
}

/// The keys of a deny table after a batch was added and then removed again.
pub open spec fn round_trip<K>(keys: Set<K>, max_entries: u32, batch: Seq<K>) -> Set<K> {
    applied(applied(keys, max_entries, batch, Mode::Add), max_entries, batch, Mode::Remove)
}

/// Adding a batch and then removing it leaves every address outside the
/// batch as it was and no address of the batch blocked. If none of the batch
/// was blocked before, the table is back where it started. This holds
/// whether or not every addition found room.
pub proof fn lemma_round_trip<K>(keys: Set<K>, max_entries: u32, batch: Seq<K>)
    ensures
        forall|key: K|
            !batch.contains(key) ==> (round_trip(keys, max_entries, batch).contains(key)
                <==> keys.contains(key)),
        forall|key: K| batch.contains(key) ==> !round_trip(keys, max_entries, batch).contains(key),
        (forall|key: K| batch.contains(key) ==> !keys.contains(key)) ==> round_trip(
            keys,
            max_entries,
            batch,
        ) == keys,
{
    let added = applied(keys, max_entries, batch, Mode::Add);
    let back = round_trip(keys, max_entries, batch);
    assert forall|key: K| #![auto]
        (back.contains(key) <==> (added.contains(key) && !batch.contains(key))) && (keys.contains(
            key,
        ) ==> added.contains(key)) && (added.contains(key) ==> (keys.contains(key)
            || batch.contains(key))) by {
        lemma_removed_batch(added, max_entries, batch, key);
        lemma_added_batch(keys, max_entries, batch, key);
    }
    if forall|key: K| batch.contains(key) ==> !keys.contains(key) {
        assert(back =~= keys);
    }
}

} // verus!
