use vstd::prelude::*;
use vstd::arithmetic::div_mod::{lemma_div_pos_is_pos, lemma_fundamental_div_mod, lemma_mod_pos_bound};
use vstd::arithmetic::mul::lemma_mul_nonnegative;
use crate::contract::{claim_outcome, deposit_outcome, share_of};
use crate::msg::ContractError;
use crate::state::{
    amount_of, index_of, lemma_credited, lemma_index_of_absent, lemma_index_of_bounds,
    lemma_index_of_found, lemma_withdrawn, sum_of, unique_keys, withdrawn, LedgerView, State,
};

verus! {

/// State and ledger after a sequence of deposit notifications
/// `(reporting contract, depositor, amount)`, applied in order; a refused one
/// changes nothing.
pub open spec fn after_deposits(
    st: State,
    s: LedgerView,
    ops: Seq<(Seq<char>, Seq<char>, u128)>,
) -> (State, LedgerView)
    decreases ops.len(),
{
    if ops.len() == 0 {
        (st, s)
    } else {
        let prev = after_deposits(st, s, ops.drop_last());
        let op = ops.last();
        match deposit_outcome(prev.0, prev.1, op.0, op.1, op.2) {
            Ok(next) => next,
            Err(_) => prev,
        }
    }
}

/// Conservation: when the ledger sums to the total of deposits, it still does
/// after any sequence of deposit notifications (so after each one of them),
/// and each depositor still has a single entry.
pub proof fn deposits_conserve_total(
    st: State,
    s: LedgerView,
    ops: Seq<(Seq<char>, Seq<char>, u128)>,
)
    requires
        unique_keys(s),
        sum_of(s) == st.total_deposits,
    ensures
        unique_keys(after_deposits(st, s, ops).1),
        sum_of(after_deposits(st, s, ops).1) == after_deposits(st, s, ops).0.total_deposits,
    decreases ops.len(),
{
    if ops.len() > 0 {
        deposits_conserve_total(st, s, ops.drop_last());
        let prev = after_deposits(st, s, ops.drop_last());
        let op = ops.last();
        if deposit_outcome(prev.0, prev.1, op.0, op.1, op.2) is Ok {
            lemma_credited(prev.1, op.1, op.2);
        }
    }
}

/// Exactly-once claim: once a claim by `who` succeeds, another claim by `who`
/// on the resulting ledger fails with `NoDeposit`.
pub proof fn claim_is_exactly_once(st: State, s: LedgerView, who: Seq<char>)
    requires
        unique_keys(s),
        claim_outcome(st, s, who) is Ok,
    ensures
        claim_outcome(st, withdrawn(s, who), who) == Err::<(LedgerView, u128), ContractError>(
            ContractError::NoDeposit,
        ),
{
    lemma_withdrawn(s, who);
}

proof fn lemma_withdrawn_keeps_others(s: LedgerView, who: Seq<char>, other: Seq<char>)
    requires
        unique_keys(s),
        who != other,
    ensures
        amount_of(withdrawn(s, who), other) == amount_of(s, other),
{
    lemma_index_of_bounds(s, who);
    lemma_index_of_bounds(s, other);
    lemma_withdrawn(s, who);
    let i = index_of(s, who);
    let j = index_of(s, other);
    let t = withdrawn(s, who);
    if i >= 0 {
        if j >= 0 {
            let j2 = if j < i { j } else { j - 1 };
            assert(t[j2] == s[j]);
            lemma_index_of_found(t, other, j2);
        } else {
            assert forall|k: int| 0 <= k < t.len() implies t[k].0 != other by {
                let k2 = if k < i { k } else { k + 1 };
                assert(t[k] == s[k2]);
            }
            lemma_index_of_absent(t, other);
        }
    }
}

proof fn lemma_shares_fit(p: int, a: int, b: int)
    requires
        p >= 0,
        a >= 0,
        b >= 0,
        a + b > 0,
    ensures
        p * a / (a + b) + p * b / (a + b) <= p,
        0 <= p * a / (a + b) <= p,
        0 <= p * b / (a + b) <= p,
{
    let t = a + b;
    lemma_mul_nonnegative(p, a);
    lemma_mul_nonnegative(p, b);
    lemma_fundamental_div_mod(p * a, t);
    lemma_fundamental_div_mod(p * b, t);
    lemma_mod_pos_bound(p * a, t);
    lemma_mod_pos_bound(p * b, t);
    lemma_div_pos_is_pos(p * a, t);
    lemma_div_pos_is_pos(p * b, t);
    let qa = p * a / t;
    let qb = p * b / t;
    assert(t * (qa + qb) <= t * p) by (nonlinear_arith)
        requires
            t * qa <= p * a,
            t * qb <= p * b,
            t == a + b,
    ;
    assert(qa + qb <= p) by (nonlinear_arith)
        requires
            t * (qa + qb) <= t * p,
            t > 0,
    ;
}

/// Proportionality: when `x` and `y` deposited `a` and `b` and the total of
/// deposits is `a + b`, each claim pays `floor(pool * deposit / (a + b))` in
/// either order, and the two together never exceed the pool.
pub proof fn claims_are_proportional(
    st: State,
    s: LedgerView,
    x: Seq<char>,
    y: Seq<char>,
    a: u128,
    b: u128,
)
    requires
        unique_keys(s),
        !st.auction_active,
        x != y,
        amount_of(s, x) == Some(a),
        amount_of(s, y) == Some(b),
        st.total_deposits == a + b,
        a + b > 0,
    ensures
        claim_outcome(st, s, x) == Ok::<(LedgerView, u128), ContractError>(
            (withdrawn(s, x), share_of(st.auction_amount, a, st.total_deposits) as u128),
        ),
        claim_outcome(st, s, y) == Ok::<(LedgerView, u128), ContractError>(
            (withdrawn(s, y), share_of(st.auction_amount, b, st.total_deposits) as u128),
        ),
        claim_outcome(st, withdrawn(s, x), y) == Ok::<(LedgerView, u128), ContractError>(
            (
                withdrawn(withdrawn(s, x), y),
                share_of(st.auction_amount, b, st.total_deposits) as u128,
            ),
        ),
        share_of(st.auction_amount, a, st.total_deposits) + share_of(
            st.auction_amount,
            b,
            st.total_deposits,
        ) <= st.auction_amount,
{
    lemma_shares_fit(st.auction_amount as int, a as int, b as int);
    lemma_withdrawn_keeps_others(s, x, y);
}

} // verus!
