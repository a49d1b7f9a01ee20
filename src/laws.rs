//! Properties of the ledger that span several states or operations, proved
//! from the outcomes that the operations guarantee.
use vstd::prelude::*;
use crate::account::AccountId;
use crate::ledger::{Balance, Erc20, Error, Event, Transfer, Approval, lemma_conservation};

verus! {

/// `next` is `cur` after one call of `transfer` (or of the move it delegates
/// to), `approve` or `transfer_from`, whether it succeeded or was rejected.
pub open spec fn step(cur: Erc20, next: Erc20) -> bool {
    ||| exists|from: AccountId, to: AccountId, value: Balance, r: Result<(), Error>|
        cur.move_outcome(next, from, to, value, r)
    ||| exists|owner: AccountId, spender: AccountId, value: Balance, r: Result<(), Error>|
        cur.approve_outcome(next, owner, spender, value, r)
    ||| exists|
        spender: AccountId,
        from: AccountId,
        to: AccountId,
        value: Balance,
        r: Result<(), Error>,
    | cur.transfer_from_outcome(next, spender, from, to, value, r)
}

/// Along any run of operations from a well-formed ledger (one made by `new`,
/// say) the total supply never changes and the balances always add up to it.
pub proof fn lemma_conservation_along_run(states: Seq<Erc20>)
    requires
        states.len() > 0,
        states[0].wf(),
        forall|i: int| 0 <= i < states.len() - 1 ==> step(#[trigger] states[i], states[i + 1]),
    ensures
        forall|i: int|
            0 <= i < states.len() ==> {
                &&& (#[trigger] states[i]).wf()
                &&& states[i].spec_total_supply() == states[0].spec_total_supply()
                &&& states[i].spec_balance_sum() == states[0].spec_total_supply()
            },
    decreases states.len(),
{
    if states.len() > 1 {
        let prefix = states.drop_last();
        assert forall|i: int| 0 <= i < prefix.len() - 1 implies step(
            #[trigger] prefix[i],
            prefix[i + 1],
        ) by {
            assert(step(states[i], states[i + 1]));
        }
        lemma_conservation_along_run(prefix);
        let n = states.len() - 1;
        assert(prefix[n - 1] == states[n - 1]);
        assert(step(states[n - 1], states[n]));
        assert(states[n].wf() && states[n].spec_total_supply() == states[n
            - 1].spec_total_supply());
        assert forall|i: int| 0 <= i < states.len() implies {
            &&& (#[trigger] states[i]).wf()
            &&& states[i].spec_total_supply() == states[0].spec_total_supply()
            &&& states[i].spec_balance_sum() == states[0].spec_total_supply()
        } by {
            if i < n {
                assert(prefix[i] == states[i]);
            }
            lemma_conservation(states[i]);
        }
    } else {
        lemma_conservation(states[0]);
    }
}

/// Moving units from an account to itself, up to its balance, succeeds and
/// leaves every balance as it was.
pub proof fn lemma_self_transfer(
    cur: Erc20,
    next: Erc20,
    a: AccountId,
    value: Balance,
    r: Result<(), Error>,
)
    requires
        cur.move_outcome(next, a, a, value, r),
        value <= cur.spec_balance(a),
    ensures
        r == Ok::<(), Error>(()),
        cur.same_balances(next),
{
}

/// A second approval of the same spender by the same owner replaces the first
/// rather than adding to it.
pub proof fn lemma_approve_overwrites(
    l0: Erc20,
    l1: Erc20,
    l2: Erc20,
    owner: AccountId,
    spender: AccountId,
    v1: Balance,
    v2: Balance,
    r1: Result<(), Error>,
    r2: Result<(), Error>,
)
    requires
        l0.approve_outcome(l1, owner, spender, v1, r1),
        l1.approve_outcome(l2, owner, spender, v2, r2),
    ensures
        l2.spec_allowance(owner, spender) == v2,
{
}

/// Moving zero units always succeeds, changes no balance, and still emits its
/// Transfer notification.
pub proof fn lemma_zero_transfer(
    cur: Erc20,
    next: Erc20,
    from: AccountId,
    to: AccountId,
    r: Result<(), Error>,
)
    requires
        cur.move_outcome(next, from, to, 0, r),
    ensures
        r == Ok::<(), Error>(()),
        cur.same_balances(next),
        next.spec_events() == cur.spec_events().push(
            Event::Transfer(Transfer { from, to, value: 0 }),
        ),
{
}

/// Moving zero units under an allowance always succeeds, changes no balance
/// and no allowance, and still emits its Transfer notification.
pub proof fn lemma_zero_transfer_from(
    cur: Erc20,
    next: Erc20,
    spender: AccountId,
    from: AccountId,
    to: AccountId,
    r: Result<(), Error>,
)
    requires
        cur.transfer_from_outcome(next, spender, from, to, 0, r),
    ensures
        r == Ok::<(), Error>(()),
        cur.same_balances(next),
        cur.same_allowances(next),
        next.spec_events() == cur.spec_events().push(
            Event::Transfer(Transfer { from, to, value: 0 }),
        ),
{
}

/// Approving zero units always succeeds, changes no balance, and still emits
/// its Approval notification.
pub proof fn lemma_zero_approve(
    cur: Erc20,
    next: Erc20,
    owner: AccountId,
    spender: AccountId,
    r: Result<(), Error>,
)
    requires
        cur.approve_outcome(next, owner, spender, 0, r),
    ensures
        r == Ok::<(), Error>(()),
        cur.same_balances(next),
        next.spec_events() == cur.spec_events().push(
            Event::Approval(Approval { from: owner, to: spender, value: 0 }),
        ),
{
}

} // verus!
