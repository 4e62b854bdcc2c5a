use vstd::prelude::*;
use crate::account::AccountId;

verus! {

/// What `entries` records for `a`: the amount of its first entry, 0 if none.
pub open spec fn total_in(entries: Seq<(AccountId, u32)>, a: AccountId) -> u32
    decreases entries.len(),
{
    if entries.len() == 0 {
        0
    } else if entries[0].0 == a {
        entries[0].1
    } else {
        total_in(entries.subrange(1, entries.len() as int), a)
    }
}

proof fn lemma_total_at_first(entries: Seq<(AccountId, u32)>, a: AccountId, j: int)
    requires
        0 <= j < entries.len(),
        entries[j].0 == a,
        forall|k: int| 0 <= k < j ==> entries[k].0 != a,
    ensures
        total_in(entries, a) == entries[j].1,
    decreases j,
{
    if j > 0 {
        let rest = entries.subrange(1, entries.len() as int);
        lemma_total_at_first(rest, a, j - 1);
    }
}

proof fn lemma_total_absent(entries: Seq<(AccountId, u32)>, a: AccountId)
    requires
        forall|k: int| 0 <= k < entries.len() ==> entries[k].0 != a,
    ensures
        total_in(entries, a) == 0,
    decreases entries.len(),
{
    if entries.len() > 0 {
        let rest = entries.subrange(1, entries.len() as int);
        assert(forall|k: int| 0 <= k < rest.len() ==> rest[k] == entries[k + 1]);
        lemma_total_absent(rest, a);
    }
}

proof fn lemma_total_update(entries: Seq<(AccountId, u32)>, a: AccountId, j: int, v: u32, b: AccountId)
    requires
        0 <= j < entries.len(),
        entries[j].0 == a,
        forall|k: int| 0 <= k < j ==> entries[k].0 != a,
    ensures
        total_in(entries.update(j, (a, v)), b) == if b == a { v } else { total_in(entries, b) },
    decreases j,
{
    let upd = entries.update(j, (a, v));
    if j == 0 {
        if b != a {
            assert(upd.subrange(1, upd.len() as int) =~= entries.subrange(1, entries.len() as int));
        }
    } else {
        let rest = entries.subrange(1, entries.len() as int);
        assert(upd.subrange(1, upd.len() as int) =~= rest.update(j - 1, (a, v)));
        lemma_total_update(rest, a, j - 1, v, b);
    }
}

proof fn lemma_total_push(entries: Seq<(AccountId, u32)>, a: AccountId, v: u32, b: AccountId)
    requires
        forall|k: int| 0 <= k < entries.len() ==> entries[k].0 != a,
    ensures
        total_in(entries.push((a, v)), b) == if b == a { v } else { total_in(entries, b) },
    decreases entries.len(),
{
    let pushed = entries.push((a, v));
    if entries.len() == 0 {
        assert(pushed[0] == (a, v));
        if b != a {
            let tail = pushed.subrange(1, pushed.len() as int);
            assert(tail =~= Seq::<(AccountId, u32)>::empty());
            assert(total_in(tail, b) == 0);
        }
    } else {
        let rest = entries.subrange(1, entries.len() as int);
        assert(pushed[0] == entries[0]);
        assert(forall|k: int| 0 <= k < rest.len() ==> rest[k] == entries[k + 1]);
        assert(pushed.subrange(1, pushed.len() as int) =~= rest.push((a, v)));
        lemma_total_push(rest, a, v, b);
    }
}

/// The amount each account has ordered, 0 for an account never seen.
pub struct AccountTotals {
    entries: Vec<(AccountId, u32)>,
}

impl View for AccountTotals {
    type V = Map<AccountId, u32>;

    closed spec fn view(&self) -> Map<AccountId, u32> {
        Map::total(|a: AccountId| total_in(self.entries@, a))
    }
}

impl AccountTotals {
    pub fn new() -> (r: AccountTotals)
        ensures
            r@ == Map::total(|a: AccountId| 0u32),
    {
        let r = AccountTotals { entries: Vec::new() };
        assert(r@ =~= Map::total(|a: AccountId| 0u32));
        r
    }

    /// The position of the first entry of `a`, if there is one.
    fn position(&self, a: &AccountId) -> (r: Option<usize>)
        ensures
            match r {
                Some(j) => j < self.entries@.len() && self.entries@[j as int].0 == *a
                    && forall|k: int| 0 <= k < j ==> self.entries@[k].0 != *a,
                None => forall|k: int| 0 <= k < self.entries@.len() ==> self.entries@[k].0 != *a,
            },
    {
        let mut i: usize = 0;
        while i < self.entries.len()
            invariant
                i <= self.entries@.len(),
                forall|k: int| 0 <= k < i ==> self.entries@[k].0 != *a,
            decreases self.entries@.len() - i,
        {
            if self.entries[i].0.same_as(a) {
                return Some(i);
            }
            i = i + 1;
        }
        None
    }

    /// The amount that `a` has ordered so far.
    pub fn get(&self, a: &AccountId) -> (r: u32)
        ensures
            r == self@[*a],
    {
        match self.position(a) {
            Some(j) => {
                proof { lemma_total_at_first(self.entries@, *a, j as int); }
                self.entries[j].1
            },
            None => {
                proof { lemma_total_absent(self.entries@, *a); }
                0
            },
        }
    }

    /// Records `v` as the amount that `a` has ordered.
    pub fn set(&mut self, a: &AccountId, v: u32)
        ensures
            final(self)@ == old(self)@.insert(*a, v),
    {
        let ghost before = self.entries@;
        match self.position(a) {
            Some(j) => {
                self.entries.set(j, (*a, v));
                proof {
                    assert forall|b: AccountId| total_in(self.entries@, b)
                        == if b == *a { v } else { total_in(before, b) } by {
                        lemma_total_update(before, *a, j as int, v, b);
                    }
                }
            },
            None => {
                self.entries.push((*a, v));
                proof {
                    assert forall|b: AccountId| total_in(self.entries@, b)
                        == if b == *a { v } else { total_in(before, b) } by {
                        lemma_total_push(before, *a, v, b);
                    }
                }
            },
        }
        assert(self@ =~= old(self)@.insert(*a, v));
    }
}

} // verus!
