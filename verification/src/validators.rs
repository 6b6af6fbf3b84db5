//! The validator key table: one private key per validator address, walked in
//! address order.

use vstd::prelude::*;
use crate::address::{lemma_before_excludes, lemma_before_transitive, Address, Rank};
use crate::keys::PrivateKey;

verus! {

/// A validator's address together with its private key.
#[derive(Clone, Copy, Debug, PartialEq, Eq)]
pub struct ValidatorKey {
    pub address: Address,
    pub key: PrivateKey,
}

/// Private keys by validator address. No address occurs twice, and the
/// entries are kept in ascending address order.
#[derive(Clone, Debug, PartialEq, Eq)]
pub struct ValidatorKeys {
    entries: Vec<ValidatorKey>,
}

/// Whether every entry comes strictly before each later one.
pub open spec fn ascending(entries: Seq<ValidatorKey>) -> bool {
    forall|i: int, j: int|
        0 <= i < j < entries.len() ==> (#[trigger] entries[i]).address.before(
            (#[trigger] entries[j]).address,
        )
}

/// Whether some entry is for `address`.
pub open spec fn holds(entries: Seq<ValidatorKey>, address: Address) -> bool {
    exists|i: int| 0 <= i < entries.len() && (#[trigger] entries[i]).address == address
}

/// The position of the entry for `address`.
pub open spec fn position(entries: Seq<ValidatorKey>, address: Address) -> int {
    choose|i: int| 0 <= i < entries.len() && (#[trigger] entries[i]).address == address
}

/// The table that a list of entries stands for.
pub open spec fn table(entries: Seq<ValidatorKey>) -> Map<Address, PrivateKey> {
    Map::new(
        |address: Address| holds(entries, address),
        |address: Address| entries[position(entries, address)].key,
    )
}

/// The table after the pairs of `addresses` and `keys` were entered one by
/// one, a later pair replacing an earlier one for the same address.
pub open spec fn entered(addresses: Seq<Address>, keys: Seq<PrivateKey>) -> Map<
    Address,
    PrivateKey,
>
    decreases addresses.len(),
{
    if addresses.len() == 0 || keys.len() != addresses.len() {
        Map::empty()
    } else {
        entered(addresses.drop_last(), keys.drop_last()).insert(addresses.last(), keys.last())
    }
}

/// In an ascending list an address has at most one position.
pub proof fn lemma_one_position(entries: Seq<ValidatorKey>, i: int, j: int)
    requires
        ascending(entries),
        0 <= i < entries.len(),
        0 <= j < entries.len(),
        entries[i].address == entries[j].address,
    ensures
        i == j,
{
    if i < j {
        lemma_before_excludes(entries[i].address, entries[j].address);
    } else if j < i {
        lemma_before_excludes(entries[j].address, entries[i].address);
    }
}

/// What the table holds at the address of a given position.
pub proof fn lemma_table_at(entries: Seq<ValidatorKey>, i: int)
    requires
        ascending(entries),
        0 <= i < entries.len(),
    ensures
        table(entries).dom().contains(entries[i].address),
        table(entries)[entries[i].address] == entries[i].key,
{
    let address = entries[i].address;
    assert(holds(entries, address));
    lemma_one_position(entries, i, position(entries, address));
}

impl ValidatorKeys {
    /// The table of keys by address.
    pub closed spec fn view(&self) -> Map<Address, PrivateKey> {
        table(self.entries@)
    }

    /// The entries in the order in which the table is walked.
    pub closed spec fn ordered(&self) -> Seq<ValidatorKey> {
        self.entries@
    }

    /// The invariant of the table: ascending addresses, none twice.
    pub closed spec fn wf(&self) -> bool {
        ascending(self.entries@)
    }

    /// How the walk order relates to the table.
    pub proof fn lemma_ordered(&self)
        requires
            self.wf(),
        ensures
            ascending(self.ordered()),
            self@ == table(self.ordered()),
            self@.dom().finite(),
            self@.dom().len() == self.ordered().len(),
    {
        lemma_table_size(self.entries@);
    }

    /// An empty table.
    pub fn new() -> (keys: ValidatorKeys)
        ensures
            keys.wf(),
            keys@ == Map::<Address, PrivateKey>::empty(),
            keys.ordered().len() == 0,
    {
        let keys = ValidatorKeys { entries: Vec::new() };
        assert(keys@ =~= Map::<Address, PrivateKey>::empty());
        keys
    }

    /// Number of validators in the table.
    pub fn len(&self) -> (n: usize)
        ensures
            n == self.ordered().len(),
    {
        self.entries.len()
    }

    /// The index of the first entry that does not come before `address`, and
    /// whether that entry is for `address` itself.
    fn locate(&self, address: &Address) -> (found: (usize, bool))
        requires
            self.wf(),
        ensures
            found.0 <= self.entries@.len(),
            forall|i: int| 0 <= i < found.0 ==> (#[trigger] self.entries@[i]).address.before(*address),
            found.1 ==> found.0 < self.entries@.len() && self.entries@[found.0 as int].address
                == *address,
            !found.1 ==> forall|i: int|
                found.0 <= i < self.entries@.len() ==> address.before(
                    (#[trigger] self.entries@[i]).address,
                ),
    {
        let mut at: usize = 0;
        while at < self.entries.len()
            invariant
                self.wf(),
                at <= self.entries@.len(),
                forall|i: int| 0 <= i < at ==> (#[trigger] self.entries@[i]).address.before(*address),
            decreases self.entries@.len() - at,
        {
            match self.entries[at].address.rank(address) {
                Rank::Before => {},
                Rank::Same => {
                    return (at, true);
                },
                Rank::After => {
                    proof {
                        assert forall|i: int| at <= i < self.entries@.len() implies address.before(
                            (#[trigger] self.entries@[i]).address,
                        ) by {
                            if i > at {
                                lemma_before_transitive(
                                    *address,
                                    self.entries@[at as int].address,
                                    self.entries@[i].address,
                                );
                            }
                        }
                    }
                    return (at, false);
                },
            }
            at += 1;
        }
        (at, false)
    }

    /// The key of the validator at `address`, if the table has one.
    pub fn get(&self, address: &Address) -> (key: Option<PrivateKey>)
        requires
            self.wf(),
        ensures
            key == if self@.dom().contains(*address) {
                Some(self@[*address])
            } else {
                None
            },
    {
        let (at, present) = self.locate(address);
        if present {
            proof {
                lemma_table_at(self.entries@, at as int);
            }
            Some(self.entries[at].key)
        } else {
            proof {
                if holds(self.entries@, *address) {
                    let i = position(self.entries@, *address);
                    if i < at {
                        lemma_before_excludes(self.entries@[i].address, *address);
                    } else {
                        lemma_before_excludes(*address, self.entries@[i].address);
                    }
                }
            }
            None
        }
    }

    /// Enters `key` for `address`. A key already entered for that address is
    /// replaced and handed back.
    pub fn insert(&mut self, address: Address, key: PrivateKey) -> (previous: Option<PrivateKey>)
        requires
            old(self).wf(),
        ensures
            final(self).wf(),
            final(self)@ == old(self)@.insert(address, key),
            previous == if old(self)@.dom().contains(address) {
                Some(old(self)@[address])
            } else {
                None
            },
    {
        let (at, present) = self.locate(&address);
        let ghost before = self.entries@;
        let entry = ValidatorKey { address, key };
        if present {
            let previous = self.entries[at].key;
            self.entries.set(at, entry);
            proof {
                let after = self.entries@;
                lemma_table_at(before, at as int);
                assert(ascending(after)) by {
                    assert forall|i: int, j: int| 0 <= i < j < after.len() implies (
                    #[trigger] after[i]).address.before((#[trigger] after[j]).address) by {
                        assert(after[i].address == before[i].address);
                        assert(after[j].address == before[j].address);
                    }
                }
                lemma_table_at(after, at as int);
                assert forall|a: Address| holds(after, a) <==> holds(before, a) by {
                    if holds(after, a) {
                        let i = position(after, a);
                        assert(before[i].address == a);
                    }
                    if holds(before, a) {
                        let i = position(before, a);
                        assert(after[i].address == a);
                    }
                }
                assert forall|a: Address| holds(after, a) && a != address implies table(after)[a]
                    == table(before)[a] by {
                    let i = position(after, a);
                    assert(before[i].address == a);
                    lemma_table_at(after, i);
                    lemma_table_at(before, i);
                    assert(after[i] == before[i]);
                }
                assert(table(after) =~= table(before).insert(address, key));
            }
            Some(previous)
        } else {
            self.entries.insert(at, entry);
            proof {
                let after = self.entries@;
                assert(after == before.insert(at as int, entry));
                assert(ascending(after)) by {
                    assert forall|i: int, j: int| 0 <= i < j < after.len() implies (
                    #[trigger] after[i]).address.before((#[trigger] after[j]).address) by {
                        let bi = if i < at { i } else { i - 1 };
                        let bj = if j < at { j } else { j - 1 };
                        if i != at {
                            assert(after[i] == before[bi]);
                        }
                        if j != at {
                            assert(after[j] == before[bj]);
                        }
                    }
                }
                assert(!holds(before, address)) by {
                    if holds(before, address) {
                        let i = position(before, address);
                        if i < at {
                            lemma_before_excludes(before[i].address, address);
                        } else {
                            lemma_before_excludes(address, before[i].address);
                        }
                    }
                }
                assert forall|a: Address| holds(after, a) <==> (a == address || holds(
                    before,
                    a,
                )) by {
                    if holds(after, a) && a != address {
                        let i = position(after, a);
                        let bi = if i < at { i } else { i - 1 };
                        assert(after[i] == before[bi]);
                    }
                    if a == address {
                        assert(after[at as int].address == a);
                    }
                    if holds(before, a) {
                        let i = position(before, a);
                        let ai = if i < at { i } else { i + 1 };
                        assert(after[ai] == before[i]);
                    }
                }
                lemma_table_at(after, at as int);
                assert forall|a: Address| holds(before, a) implies table(after)[a] == table(
                    before,
                )[a] by {
                    let i = position(before, a);
                    let ai = if i < at { i } else { i + 1 };
                    assert(after[ai] == before[i]);
                    lemma_table_at(before, i);
                    lemma_table_at(after, ai);
                }
                assert(table(after) =~= table(before).insert(address, key));
            }
            None
        }
    }

    /// The validator addresses in ascending order.
    pub fn addresses(&self) -> (addresses: Vec<Address>)
        ensures
            addresses@ == self.ordered().map_values(|entry: ValidatorKey| entry.address),
    {
        let mut addresses: Vec<Address> = Vec::new();
        let mut i: usize = 0;
        while i < self.entries.len()
            invariant
                i <= self.entries@.len(),
                addresses@ == self.entries@.take(i as int).map_values(
                    |entry: ValidatorKey| entry.address,
                ),
            decreases self.entries@.len() - i,
        {
            addresses.push(self.entries[i].address);
            assert(addresses@ =~= self.entries@.take(i + 1).map_values(
                |entry: ValidatorKey| entry.address,
            ));
            i += 1;
        }
        assert(self.entries@.take(self.entries@.len() as int) =~= self.entries@);
        addresses
    }

    /// The entries in ascending address order.
    pub fn entries(&self) -> (entries: Vec<ValidatorKey>)
        ensures
            entries@ == self.ordered(),
    {
        self.entries.clone()
    }
}

/// An ascending list stands for a table with as many addresses as it has
/// entries.
pub proof fn lemma_table_size(entries: Seq<ValidatorKey>)
    requires
        ascending(entries),
    ensures
        table(entries).dom().finite(),
        table(entries).dom().len() == entries.len(),
    decreases entries.len(),
{
    if entries.len() == 0 {
        assert(table(entries).dom() =~= Set::<Address>::empty());
    } else {
        let front = entries.drop_last();
        let last = entries.last();
        assert(ascending(front)) by {
            assert forall|i: int, j: int| 0 <= i < j < front.len() implies (#[trigger] front[i]).address.before(
                (#[trigger] front[j]).address,
            ) by {
                assert(front[i] == entries[i]);
                assert(front[j] == entries[j]);
            }
        }
        lemma_table_size(front);
        assert(!holds(front, last.address)) by {
            if holds(front, last.address) {
                let i = position(front, last.address);
                assert(front[i] == entries[i]);
                lemma_one_position(entries, i, entries.len() - 1);
            }
        }
        assert(table(entries).dom() =~= table(front).dom().insert(last.address)) by {
            assert forall|a: Address| holds(entries, a) <==> (a == last.address || holds(
                front,
                a,
            )) by {
                if holds(entries, a) && a != last.address {
                    let i = position(entries, a);
                    assert(front[i] == entries[i]);
                }
                if a == last.address {
                    assert(entries[entries.len() - 1].address == a);
                }
                if holds(front, a) {
                    let i = position(front, a);
                    assert(front[i] == entries[i]);
                }
            }
        }
    }
}

/// Enters the keys of the validators under their addresses, in the order
/// given. Nothing is entered unless there is one address for each key.
pub fn index_validators(addresses: &Vec<Address>, keys: &Vec<PrivateKey>) -> (table: Option<
    ValidatorKeys,
>)
    ensures
        table is Some <==> addresses@.len() == keys@.len(),
        table matches Some(t) ==> t.wf() && t@ == entered(addresses@, keys@),
{
    if addresses.len() != keys.len() {
        return None;
    }
    let mut table = ValidatorKeys::new();
    let mut i: usize = 0;
    assert(entered(addresses@.take(0), keys@.take(0)) =~= Map::<Address, PrivateKey>::empty());
    while i < addresses.len()
        invariant
            i <= addresses@.len(),
            addresses@.len() == keys@.len(),
            table.wf(),
            table@ == entered(addresses@.take(i as int), keys@.take(i as int)),
        decreases addresses@.len() - i,
    {
        table.insert(addresses[i], keys[i]);
        proof {
            let a = addresses@.take(i + 1);
            let k = keys@.take(i + 1);
            assert(a.drop_last() =~= addresses@.take(i as int));
            assert(k.drop_last() =~= keys@.take(i as int));
        }
        i += 1;
    }
    assert(addresses@.take(addresses@.len() as int) =~= addresses@);
    assert(keys@.take(keys@.len() as int) =~= keys@);
    Some(table)
}

} // verus!
