//! A table from keys to token amounts, the ledger's storage.
//!
//! A key that was never written reads as absent; the ledger reads absent
//! entries as zero. The table also keeps the sum of all its amounts in view,
//! which is what the ledger's conservation law is stated over.
use vstd::prelude::*;
use crate::{AccountId, Balance};

verus! {

/// Keys that the table can compare at run time.
pub trait TableKey: Sized {
    /// Whether two keys are the same key.
    fn same_key(&self, other: &Self) -> (same: bool)
        ensures
            same == (*self == *other),
    ;
}

impl TableKey for [u8; 32] {
    fn same_key(&self, other: &Self) -> (same: bool) {
        let mut i: usize = 0;
        while i < 32
            invariant
                0 <= i <= 32,
                forall|j: int| 0 <= j < i ==> self[j] == other[j],
            decreases 32 - i,
        {
            if self[i] != other[i] {
                return false;
            }
            i = i + 1;
        }
        assert(*self =~= *other);
        true
    }
}

impl TableKey for (AccountId, AccountId) {
    fn same_key(&self, other: &Self) -> (same: bool) {
        let first = self.0.same_key(&other.0);
        let second = self.1.same_key(&other.1);
        first && second
    }
}

/// No key occurs in two entries.
pub open spec fn unique_keys<K>(s: Seq<(K, Balance)>) -> bool {
    forall|i: int, j: int| 0 <= i < s.len() && 0 <= j < s.len() && i != j ==> s[i].0 != s[j].0
}

/// The map that a sequence of entries stands for.
pub open spec fn entries_map<K>(s: Seq<(K, Balance)>) -> Map<K, Balance>
    decreases s.len(),
{
    if s.len() == 0 {
        Map::empty()
    } else {
        entries_map(s.drop_last()).insert(s.last().0, s.last().1)
    }
}

/// The sum of the amounts of a sequence of entries.
pub open spec fn entries_sum<K>(s: Seq<(K, Balance)>) -> int
    decreases s.len(),
{
    if s.len() == 0 {
        0
    } else {
        entries_sum(s.drop_last()) + s.last().1
    }
}

/// The amount stored under `k`, or zero where nothing is.
pub open spec fn amount_in<K>(m: Map<K, Balance>, k: K) -> Balance {
    if m.dom().contains(k) {
        m[k]
    } else {
        0
    }
}

proof fn lemma_unique_drop_last<K>(s: Seq<(K, Balance)>)
    requires
        unique_keys(s),
        s.len() > 0,
    ensures
        unique_keys(s.drop_last()),
{
}

proof fn lemma_map_has_entry<K>(s: Seq<(K, Balance)>, i: int)
    requires
        unique_keys(s),
        0 <= i < s.len(),
    ensures
        entries_map(s).dom().contains(s[i].0),
        entries_map(s)[s[i].0] == s[i].1,
    decreases s.len(),
{
    if i < s.len() - 1 {
        lemma_unique_drop_last(s);
        lemma_map_has_entry(s.drop_last(), i);
        assert(s.drop_last()[i] == s[i]);
        assert(s.last().0 != s[i].0);
    }
}

proof fn lemma_map_lacks_key<K>(s: Seq<(K, Balance)>, k: K)
    requires
        forall|i: int| 0 <= i < s.len() ==> s[i].0 != k,
    ensures
        !entries_map(s).dom().contains(k),
    decreases s.len(),
{
    if s.len() > 0 {
        assert forall|i: int| 0 <= i < s.drop_last().len() implies s.drop_last()[i].0 != k by {
            assert(s.drop_last()[i] == s[i]);
        }
        lemma_map_lacks_key(s.drop_last(), k);
        assert(s.last() == s[s.len() - 1]);
    }
}

proof fn lemma_map_dom_keys<K>(s: Seq<(K, Balance)>, k: K)
    requires
        entries_map(s).dom().contains(k),
    ensures
        exists|i: int| 0 <= i < s.len() && s[i].0 == k,
{
    if forall|i: int| 0 <= i < s.len() ==> s[i].0 != k {
        lemma_map_lacks_key(s, k);
    }
}

proof fn lemma_map_update<K>(s: Seq<(K, Balance)>, i: int, v: Balance)
    requires
        unique_keys(s),
        0 <= i < s.len(),
    ensures
        entries_map(s.update(i, (s[i].0, v))) =~= entries_map(s).insert(s[i].0, v),
    decreases s.len(),
{
    let t = s.update(i, (s[i].0, v));
    if i == s.len() - 1 {
        assert(t.drop_last() =~= s.drop_last());
    } else {
        lemma_unique_drop_last(s);
        assert(t.drop_last() =~= s.drop_last().update(i, (s[i].0, v)));
        assert(s.drop_last()[i] == s[i]);
        lemma_map_update(s.drop_last(), i, v);
        assert(t.last() == s.last());
        assert(s.last().0 != s[i].0);
    }
}

proof fn lemma_sum_update<K>(s: Seq<(K, Balance)>, i: int, e: (K, Balance))
    requires
        0 <= i < s.len(),
    ensures
        entries_sum(s.update(i, e)) == entries_sum(s) - s[i].1 + e.1,
    decreases s.len(),
{
    let t = s.update(i, e);
    if i == s.len() - 1 {
        assert(t.drop_last() =~= s.drop_last());
    } else {
        assert(t.drop_last() =~= s.drop_last().update(i, e));
        lemma_sum_update(s.drop_last(), i, e);
        assert(s.drop_last()[i] == s[i]);
    }
}

proof fn lemma_sum_push<K>(s: Seq<(K, Balance)>, e: (K, Balance))
    ensures
        entries_sum(s.push(e)) == entries_sum(s) + e.1,
        entries_map(s.push(e)) == entries_map(s).insert(e.0, e.1),
{
    assert(s.push(e).drop_last() =~= s);
}

proof fn lemma_sum_nonneg<K>(s: Seq<(K, Balance)>)
    ensures
        entries_sum(s) >= 0,
    decreases s.len(),
{
    if s.len() > 0 {
        lemma_sum_nonneg(s.drop_last());
    }
}

proof fn lemma_sum_prefix<K>(s: Seq<(K, Balance)>, i: int)
    requires
        0 <= i <= s.len(),
    ensures
        entries_sum(s.take(i)) <= entries_sum(s),
    decreases s.len(),
{
    if i == s.len() {
        assert(s.take(i) =~= s);
    } else {
        lemma_sum_prefix(s.drop_last(), i);
        assert(s.drop_last().take(i) =~= s.take(i));
    }
}

proof fn lemma_sum_take_step<K>(s: Seq<(K, Balance)>, i: int)
    requires
        0 <= i < s.len(),
    ensures
        entries_sum(s.take(i + 1)) == entries_sum(s.take(i)) + s[i].1,
{
    assert(s.take(i + 1).drop_last() =~= s.take(i));
}

proof fn lemma_sum_bounds<K>(s: Seq<(K, Balance)>, i: int, j: int)
    requires
        0 <= i < s.len(),
        0 <= j < s.len(),
    ensures
        s[i].1 <= entries_sum(s),
        i != j ==> s[i].1 + s[j].1 <= entries_sum(s),
    decreases s.len(),
{
    let d = s.drop_last();
    let n = s.len() - 1;
    lemma_sum_nonneg(d);
    if i < n && j < n {
        lemma_sum_bounds(d, i, j);
        assert(d[i] == s[i] && d[j] == s[j]);
    } else if i < n {
        lemma_sum_bounds(d, i, i);
        assert(d[i] == s[i]);
    } else if j < n {
        lemma_sum_bounds(d, j, j);
        assert(d[j] == s[j]);
    }
}

/// A table from keys to token amounts.
pub struct Table<K> {
    entries: Vec<(K, Balance)>,
}

impl<K> View for Table<K> {
    type V = Map<K, Balance>;

    closed spec fn view(&self) -> Map<K, Balance> {
        entries_map(self.entries@)
    }
}

impl<K> Table<K> {
    /// The table holds no key twice.
    pub closed spec fn wf(&self) -> bool {
        unique_keys(self.entries@)
    }

    /// The sum of all amounts in the table.
    pub closed spec fn total(&self) -> int {
        entries_sum(self.entries@)
    }

    /// The sum of a table's amounts is never negative and bounds each
    /// amount, and the sum of any two amounts under distinct keys.
    pub proof fn lemma_total_bounds(&self, a: K, b: K)
        requires
            self.wf(),
        ensures
            0 <= self.total(),
            amount_in(self@, a) <= self.total(),
            a != b ==> amount_in(self@, a) + amount_in(self@, b) <= self.total(),
    {
        let s = self.entries@;
        lemma_sum_nonneg(s);
        if self@.dom().contains(a) {
            lemma_map_dom_keys(s, a);
            let i = choose|i: int| 0 <= i < s.len() && s[i].0 == a;
            lemma_map_has_entry(s, i);
            lemma_sum_bounds(s, i, i);
            if self@.dom().contains(b) && a != b {
                lemma_map_dom_keys(s, b);
                let j = choose|j: int| 0 <= j < s.len() && s[j].0 == b;
                lemma_map_has_entry(s, j);
                lemma_sum_bounds(s, i, j);
            }
        } else if self@.dom().contains(b) {
            lemma_map_dom_keys(s, b);
            let j = choose|j: int| 0 <= j < s.len() && s[j].0 == b;
            lemma_map_has_entry(s, j);
            lemma_sum_bounds(s, j, j);
        }
    }

    /// An empty table.
    pub fn new() -> (table: Self)
        ensures
            table.wf(),
            table@ == Map::<K, Balance>::empty(),
            table.total() == 0,
    {
        Table { entries: Vec::new() }
    }
}

impl<K: TableKey> Table<K> {
    /// A table holding exactly `entries`, or `None` where a key occurs in
    /// two of them.
    pub fn from_entries(entries: Vec<(K, Balance)>) -> (table: Option<Self>)
        ensures
            table is Some <==> unique_keys(entries@),
            table matches Some(t) ==> {
                &&& t.wf()
                &&& t@ == entries_map(entries@)
                &&& t.total() == entries_sum(entries@)
            },
    {
        let n = entries.len();
        let mut i: usize = 0;
        while i < n
            invariant
                n == entries@.len(),
                0 <= i <= n,
                forall|a: int, b: int|
                    0 <= a < i && 0 <= b < i && a != b ==> entries@[a].0 != entries@[b].0,
            decreases n - i,
        {
            let mut j: usize = 0;
            while j < i
                invariant
                    n == entries@.len(),
                    0 <= j <= i < n,
                    forall|b: int| 0 <= b < j ==> entries@[b].0 != entries@[i as int].0,
                decreases i - j,
            {
                if entries[j].0.same_key(&entries[i].0) {
                    assert(!unique_keys(entries@)) by {
                        assert(entries@[j as int].0 == entries@[i as int].0);
                    }
                    return None;
                }
                j = j + 1;
            }
            i = i + 1;
        }
        Some(Table { entries })
    }

    /// The entries of the table, each key once.
    pub fn into_entries(self) -> (entries: Vec<(K, Balance)>)
        requires
            self.wf(),
        ensures
            unique_keys(entries@),
            entries_map(entries@) == self@,
            entries_sum(entries@) == self.total(),
    {
        self.entries
    }

    /// Whether the amounts of the table add up to exactly `amount`.
    pub fn total_is(&self, amount: Balance) -> (equal: bool)
        ensures
            equal == (self.total() == amount as int),
    {
        let n = self.entries.len();
        let mut sum: Balance = 0;
        let mut i: usize = 0;
        while i < n
            invariant
                n == self.entries@.len(),
                0 <= i <= n,
                sum as int == entries_sum(self.entries@.take(i as int)),
            decreases n - i,
        {
            proof {
                lemma_sum_take_step(self.entries@, i as int);
            }
            match sum.checked_add(self.entries[i].1) {
                Some(next) => {
                    sum = next;
                },
                None => {
                    proof {
                        lemma_sum_prefix(self.entries@, i as int + 1);
                    }
                    return false;
                },
            }
            i = i + 1;
        }
        assert(self.entries@.take(n as int) =~= self.entries@);
        sum == amount
    }

    /// The position of the entry for `k`, if there is one.
    fn find(&self, k: &K) -> (pos: Option<usize>)
        ensures
            match pos {
                Some(i) => i < self.entries@.len() && self.entries@[i as int].0 == *k,
                None => forall|i: int| 0 <= i < self.entries@.len() ==> self.entries@[i].0 != *k,
            },
    {
        let mut i: usize = 0;
        while i < self.entries.len()
            invariant
                0 <= i <= self.entries@.len(),
                forall|j: int| 0 <= j < i ==> self.entries@[j].0 != *k,
            decreases self.entries@.len() - i,
        {
            if self.entries[i].0.same_key(k) {
                return Some(i);
            }
            i = i + 1;
        }
        None
    }

    /// The amount stored under `k`, if any.
    pub fn get(&self, k: &K) -> (amount: Option<Balance>)
        requires
            self.wf(),
        ensures
            amount == (if self@.dom().contains(*k) { Some(self@[*k]) } else { None::<Balance> }),
    {
        match self.find(k) {
            Some(i) => {
                proof {
                    lemma_map_has_entry(self.entries@, i as int);
                }
                Some(self.entries[i].1)
            },
            None => {
                proof {
                    lemma_map_lacks_key(self.entries@, *k);
                }
                None
            },
        }
    }

    /// Stores `amount` under `k`, replacing what was there.
    pub fn insert(&mut self, k: K, amount: Balance)
        requires
            old(self).wf(),
        ensures
            final(self).wf(),
            final(self)@ == old(self)@.insert(k, amount),
            final(self).total() == old(self).total() - amount_in(old(self)@, k) + amount,
    {
        match self.find(&k) {
            Some(i) => {
                proof {
                    lemma_map_has_entry(self.entries@, i as int);
                    lemma_map_update(self.entries@, i as int, amount);
                    lemma_sum_update(self.entries@, i as int, (k, amount));
                }
                self.entries[i] = (k, amount);
            },
            None => {
                proof {
                    lemma_map_lacks_key(self.entries@, k);
                    lemma_sum_push(self.entries@, (k, amount));
                }
                self.entries.push((k, amount));
            },
        }
    }
}

} // verus!
