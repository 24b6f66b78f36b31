use vstd::prelude::*;

verus! {

/// The view of a ledger: `(owner, unclaimed deposit)` pairs in insertion order.
pub type LedgerView = Seq<(Seq<char>, u128)>;

/// Configuration and counters of the auction; `auction_admin`, the two token
/// contracts and their code hashes are fixed when the contract is created.
#[derive(Clone, Debug, PartialEq, Eq)]
pub struct State {
    pub auction_admin: String,
    pub project_snip_contract: String,
    pub project_snip_hash: String,
    pub paired_snip_contract: String,
    pub paired_snip_hash: String,
    pub auction_amount: u128,
    pub total_deposits: u128,
    pub auction_active: bool,
}

/// Unclaimed deposits, one entry per depositor.
#[derive(Clone, Debug, PartialEq, Eq)]
pub struct Deposits {
    entries: Vec<(String, u128)>,
}

/// Position of `who` in `s` (the last one, searching from the back), or -1.
pub open spec fn index_of(s: LedgerView, who: Seq<char>) -> int
    decreases s.len(),
{
    if s.len() == 0 {
        -1
    } else if s.last().0 == who {
        s.len() - 1
    } else {
        index_of(s.drop_last(), who)
    }
}

/// The unclaimed deposit of `who`, if there is an entry for it.
pub open spec fn amount_of(s: LedgerView, who: Seq<char>) -> Option<u128> {
    if index_of(s, who) >= 0 {
        Some(s[index_of(s, who)].1)
    } else {
        None
    }
}

/// The sum of all unclaimed deposits.
pub open spec fn sum_of(s: LedgerView) -> nat
    decreases s.len(),
{
    if s.len() == 0 {
        0
    } else {
        sum_of(s.drop_last()) + s.last().1 as nat
    }
}

/// No owner has two entries.
pub open spec fn unique_keys(s: LedgerView) -> bool {
    forall|i: int, j: int| 0 <= i < j < s.len() ==> s[i].0 != s[j].0
}

/// `s` after `who` deposits `amount`: its entry grows, or a new one is added.
pub open spec fn credited(s: LedgerView, who: Seq<char>, amount: u128) -> LedgerView {
    let i = index_of(s, who);
    if i >= 0 {
        s.update(i, (who, (s[i].1 + amount) as u128))
    } else {
        s.push((who, amount))
    }
}

/// `s` without the entry of `who`.
pub open spec fn withdrawn(s: LedgerView, who: Seq<char>) -> LedgerView {
    let i = index_of(s, who);
    if i >= 0 {
        s.remove(i)
    } else {
        s
    }
}

/// With unique owners, the entry found for `who` is the one at `i`.
pub proof fn lemma_index_of_found(s: LedgerView, who: Seq<char>, i: int)
    requires
        unique_keys(s),
        0 <= i < s.len(),
        s[i].0 == who,
    ensures
        index_of(s, who) == i,
    decreases s.len(),
{
    if i < s.len() - 1 {
        lemma_index_of_found(s.drop_last(), who, i);
    }
}

/// With no entry for `who`, nothing is found.
pub proof fn lemma_index_of_absent(s: LedgerView, who: Seq<char>)
    requires
        forall|j: int| 0 <= j < s.len() ==> s[j].0 != who,
    ensures
        index_of(s, who) == -1,
    decreases s.len(),
{
    if s.len() > 0 {
        lemma_index_of_absent(s.drop_last(), who);
    }
}

/// `index_of` is -1 or the position of an entry of `who`.
pub proof fn lemma_index_of_bounds(s: LedgerView, who: Seq<char>)
    ensures
        -1 <= index_of(s, who) < s.len(),
        index_of(s, who) >= 0 ==> s[index_of(s, who)].0 == who,
        index_of(s, who) == -1 ==> forall|j: int| 0 <= j < s.len() ==> s[j].0 != who,
    decreases s.len(),
{
    if s.len() > 0 {
        lemma_index_of_bounds(s.drop_last(), who);
        if index_of(s, who) == -1 {
            assert forall|j: int| 0 <= j < s.len() implies s[j].0 != who by {
                if j < s.len() - 1 {
                    assert(s.drop_last()[j] == s[j]);
                }
            }
        }
    }
}

/// Appending an entry adds its amount to the sum.
pub proof fn lemma_sum_push(s: LedgerView, e: (Seq<char>, u128))
    ensures
        sum_of(s.push(e)) == sum_of(s) + e.1,
{
    assert(s.push(e).drop_last() =~= s);
}

/// Replacing an entry swaps its amount in the sum.
pub proof fn lemma_sum_update(s: LedgerView, i: int, e: (Seq<char>, u128))
    requires
        0 <= i < s.len(),
    ensures
        sum_of(s.update(i, e)) == sum_of(s) - s[i].1 + e.1,
    decreases s.len(),
{
    if i == s.len() - 1 {
        assert(s.update(i, e).drop_last() =~= s.drop_last());
    } else {
        lemma_sum_update(s.drop_last(), i, e);
        assert(s.update(i, e).drop_last() =~= s.drop_last().update(i, e));
    }
}

/// Removing an entry takes its amount off the sum.
pub proof fn lemma_sum_remove(s: LedgerView, i: int)
    requires
        0 <= i < s.len(),
    ensures
        sum_of(s.remove(i)) == sum_of(s) - s[i].1,
    decreases s.len(),
{
    if i == s.len() - 1 {
        assert(s.remove(i) =~= s.drop_last());
    } else {
        lemma_sum_remove(s.drop_last(), i);
        assert(s.remove(i).drop_last() =~= s.drop_last().remove(i));
    }
}

/// Crediting keeps the owners unique and adds `amount` to the sum.
pub proof fn lemma_credited(s: LedgerView, who: Seq<char>, amount: u128)
    requires
        unique_keys(s),
        amount_of(s, who) is Some ==> amount_of(s, who)->0 + amount <= u128::MAX,
    ensures
        unique_keys(credited(s, who, amount)),
        sum_of(credited(s, who, amount)) == sum_of(s) + amount,
        amount_of(credited(s, who, amount), who) == Some(
            (match amount_of(s, who) {
                Some(a) => a + amount,
                None => amount as int,
            }) as u128,
        ),
{
    lemma_index_of_bounds(s, who);
    let i = index_of(s, who);
    let t = credited(s, who, amount);
    if i >= 0 {
        lemma_sum_update(s, i, (who, (s[i].1 + amount) as u128));
        lemma_index_of_found(t, who, i);
    } else {
        lemma_sum_push(s, (who, amount));
        lemma_index_of_found(t, who, s.len() as int);
    }
}

/// Withdrawing keeps the owners unique, leaves no entry for `who`, and takes
/// its deposit off the sum.
pub proof fn lemma_withdrawn(s: LedgerView, who: Seq<char>)
    requires
        unique_keys(s),
    ensures
        unique_keys(withdrawn(s, who)),
        amount_of(withdrawn(s, who), who) is None,
        sum_of(withdrawn(s, who)) == sum_of(s) - match amount_of(s, who) {
            Some(a) => a as int,
            None => 0,
        },
{
    lemma_index_of_bounds(s, who);
    let i = index_of(s, who);
    let t = withdrawn(s, who);
    if i >= 0 {
        lemma_sum_remove(s, i);
        assert forall|a: int, b: int| 0 <= a < b < t.len() implies t[a].0 != t[b].0 by {
            let a2 = if a < i { a } else { a + 1 };
            let b2 = if b < i { b } else { b + 1 };
            assert(t[a] == s[a2] && t[b] == s[b2]);
        }
        assert forall|j: int| 0 <= j < t.len() implies t[j].0 != who by {
            let j2 = if j < i { j } else { j + 1 };
            assert(t[j] == s[j2]);
        }
    }
    lemma_index_of_absent(t, who);
}

impl View for Deposits {
    type V = LedgerView;

    closed spec fn view(&self) -> LedgerView {
        self.entries@.map_values(|e: (String, u128)| (e.0@, e.1))
    }
}

impl Deposits {
    /// Each owner has at most one entry.
    pub open spec fn wf(&self) -> bool {
        unique_keys(self@)
    }

    /// An empty ledger.
    pub fn new() -> (r: Deposits)
        ensures
            r@ == Seq::<(Seq<char>, u128)>::empty(),
            r.wf(),
    {
        let r = Deposits { entries: Vec::new() };
        assert(r@ =~= Seq::<(Seq<char>, u128)>::empty());
        r
    }

    /// Position of the entry of `who`.
    fn position(&self, who: &String) -> (r: Option<usize>)
        requires
            self.wf(),
        ensures
            match r {
                Some(i) => i == index_of(self@, who@) && i < self@.len(),
                None => index_of(self@, who@) < 0,
            },
    {
        let n = self.entries.len();
        let mut i: usize = 0;
        while i < n
            invariant
                n == self.entries@.len(),
                n == self@.len(),
                self.wf(),
                i <= n,
                forall|j: int| 0 <= j < i ==> self@[j].0 != who@,
            decreases n - i,
        {
            if self.entries[i].0 == *who {
                proof {
                    lemma_index_of_found(self@, who@, i as int);
                }
                return Some(i);
            }
            i = i + 1;
        }
        proof {
            lemma_index_of_absent(self@, who@);
        }
        None
    }

    /// The unclaimed deposit of `who`, if any.
    pub fn get(&self, who: &String) -> (r: Option<u128>)
        requires
            self.wf(),
        ensures
            r == amount_of(self@, who@),
    {
        match self.position(who) {
            Some(i) => Some(self.entries[i].1),
            None => None,
        }
    }

    /// Adds `amount` to the entry of `who`, creating it if absent; `None` when
    /// the entry would exceed `u128::MAX`, the ledger then unchanged.
    pub fn credit(&mut self, who: &String, amount: u128) -> (r: Option<u128>)
        requires
            old(self).wf(),
        ensures
            final(self).wf(),
            match amount_of(old(self)@, who@) {
                Some(a) if a + amount > u128::MAX => r is None && final(self)@ == old(self)@,
                Some(a) => r == Some((a + amount) as u128) && final(self)@ == credited(
                    old(self)@,
                    who@,
                    amount,
                ),
                None => r == Some(amount) && final(self)@ == credited(old(self)@, who@, amount),
            },
    {
        proof {
            lemma_index_of_bounds(self@, who@);
        }
        match self.position(who) {
            Some(i) => {
                match self.entries[i].1.checked_add(amount) {
                    Some(total) => {
                        proof {
                            lemma_credited(self@, who@, amount);
                        }
                        self.entries[i].1 = total;
                        assert(self@ =~= credited(old(self)@, who@, amount));
                        Some(total)
                    },
                    None => None,
                }
            },
            None => {
                proof {
                    lemma_credited(self@, who@, amount);
                }
                self.entries.push((who.clone(), amount));
                assert(self@ =~= credited(old(self)@, who@, amount));
                Some(amount)
            },
        }
    }

    /// Removes the entry of `who` and returns its deposit.
    pub fn remove(&mut self, who: &String) -> (r: Option<u128>)
        requires
            old(self).wf(),
        ensures
            final(self).wf(),
            r == amount_of(old(self)@, who@),
            final(self)@ == withdrawn(old(self)@, who@),
    {
        proof {
            lemma_index_of_bounds(self@, who@);
            lemma_withdrawn(self@, who@);
        }
        match self.position(who) {
            Some(i) => {
                let e = self.entries.remove(i);
                assert(self@ =~= withdrawn(old(self)@, who@));
                Some(e.1)
            },
            None => None,
        }
    }
}

} // verus!
