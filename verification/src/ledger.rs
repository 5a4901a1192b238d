//! What the operations of a settlement do to a ledger of accounts, and that
//! carrying them out in order gives the state that the processors promise.
use vstd::prelude::*;
use crate::refund::Refund;
use crate::state::Account;
use crate::take::Take;
use crate::token::Step;

verus! {

/// The ledger after one operation. Accounts are found by address, so an
/// operation that names one account twice acts on that one account.
pub open spec fn apply(step: Step, ledger: Map<Seq<u8>, Account>) -> Map<Seq<u8>, Account> {
    match step {
        Step::Transfer { from, to, authority, amount, signing } => {
            let debited = ledger.insert(
                from@,
                ledger[from@].with_amount((ledger[from@].token().amount - amount) as u64),
            );
            debited.insert(
                to@,
                debited[to@].with_amount((debited[to@].token().amount + amount) as u64),
            )
        },
        Step::CloseAccount { account, destination, authority, signing } => {
            let closed = ledger.insert(account@, ledger[account@].closed());
            closed.insert(destination@, closed[destination@].credited(ledger[account@].lamports))
        },
        Step::CloseRecord { account, destination } => {
            let closed = ledger.insert(account@, ledger[account@].closed());
            closed.insert(destination@, closed[destination@].credited(ledger[account@].lamports))
        },
    }
}

/// The ledger after the operations ran in order.
pub open spec fn run(steps: Seq<Step>, ledger: Map<Seq<u8>, Account>) -> Map<Seq<u8>, Account>
    decreases steps.len(),
{
    if steps.len() == 0 {
        ledger
    } else {
        run(steps.drop_first(), apply(steps[0], ledger))
    }
}

/// The accounts that a Take changes sit at seven different addresses.
pub open spec fn take_parties_differ(t: Take) -> bool {
    let a = t.accounts;
    let s = seq![
        a.taker.address@,
        a.maker.address@,
        a.escrow_pda.address@,
        a.vault_pda.address@,
        a.taker_ata_a.address@,
        a.taker_ata_b.address@,
        a.maker_ata_b.address@,
    ];
    forall|i: int, j: int| 0 <= i < j < 7 ==> s[i] != s[j]
}

/// The ledger holds each account that a Take changes as the Take sees it.
pub open spec fn take_on_ledger(t: Take, ledger: Map<Seq<u8>, Account>) -> bool {
    let a = t.accounts;
    &&& ledger[a.taker.address@] == a.taker
    &&& ledger[a.maker.address@] == a.maker
    &&& ledger[a.escrow_pda.address@] == a.escrow_pda
    &&& ledger[a.vault_pda.address@] == a.vault_pda
    &&& ledger[a.taker_ata_a.address@] == a.taker_ata_a
    &&& ledger[a.taker_ata_b.address@] == a.taker_ata_b
    &&& ledger[a.maker_ata_b.address@] == a.maker_ata_b
}

/// The accounts that a Refund changes sit at four different addresses.
pub open spec fn refund_parties_differ(r: Refund) -> bool {
    let a = r.accounts;
    let s = seq![
        a.maker.address@,
        a.escrow_pda.address@,
        a.vault_pda.address@,
        a.maker_ata_a.address@,
    ];
    forall|i: int, j: int| 0 <= i < j < 4 ==> s[i] != s[j]
}

/// The ledger holds each account that a Refund changes as the Refund sees it.
pub open spec fn refund_on_ledger(r: Refund, ledger: Map<Seq<u8>, Account>) -> bool {
    let a = r.accounts;
    &&& ledger[a.maker.address@] == a.maker
    &&& ledger[a.escrow_pda.address@] == a.escrow_pda
    &&& ledger[a.vault_pda.address@] == a.vault_pda
    &&& ledger[a.maker_ata_a.address@] == a.maker_ata_a
}

/// Carrying out the operations of a Take in order, on a ledger that holds its
/// parties at different addresses, leaves each party as `settled` says and
/// every other account as it was.
pub proof fn take_steps_settle(t: Take, ledger: Map<Seq<u8>, Account>)
    requires
        t.fault() is None,
        take_parties_differ(t),
        take_on_ledger(t, ledger),
    ensures
        take_on_ledger(
            Take { accounts: t.accounts.settled(t.record()), program_id: t.program_id },
            run(t.spec_steps(), ledger),
        ),
        forall|k: Seq<u8>|
            k != t.accounts.taker.address@ && k != t.accounts.maker.address@ && k
                != t.accounts.escrow_pda.address@ && k != t.accounts.vault_pda.address@ && k
                != t.accounts.taker_ata_a.address@ && k != t.accounts.taker_ata_b.address@ && k
                != t.accounts.maker_ata_b.address@ ==> #[trigger] run(t.spec_steps(), ledger)[k]
                == ledger[k],
{
    let a = t.accounts;
    let s = seq![
        a.taker.address@,
        a.maker.address@,
        a.escrow_pda.address@,
        a.vault_pda.address@,
        a.taker_ata_a.address@,
        a.taker_ata_b.address@,
        a.maker_ata_b.address@,
    ];
    assert(s[0] != s[1] && s[0] != s[2] && s[0] != s[3] && s[0] != s[4] && s[0] != s[5] && s[0]
        != s[6]);
    assert(s[1] != s[2] && s[1] != s[3] && s[1] != s[4] && s[1] != s[5] && s[1] != s[6]);
    assert(s[2] != s[3] && s[2] != s[4] && s[2] != s[5] && s[2] != s[6]);
    assert(s[3] != s[4] && s[3] != s[5] && s[3] != s[6]);
    assert(s[4] != s[5] && s[4] != s[6] && s[5] != s[6]);
    let steps = t.spec_steps();
    let l1 = apply(steps[0], ledger);
    let l2 = apply(steps[1], l1);
    let l3 = apply(steps[2], l2);
    let l4 = apply(steps[3], l3);
    assert(run(steps, ledger) == l4) by {
        reveal_with_fuel(run, 5);
        let r1 = steps.drop_first();
        let r2 = r1.drop_first();
        let r3 = r2.drop_first();
        let r4 = r3.drop_first();
        assert(r1[0] == steps[1] && r2[0] == steps[2] && r3[0] == steps[3] && r4.len() == 0);
    }
}

/// Carrying out the operations of a Refund in order, on a ledger that holds
/// its parties at different addresses, leaves each party as `settled` says
/// and every other account as it was.
pub proof fn refund_steps_settle(r: Refund, ledger: Map<Seq<u8>, Account>)
    requires
        r.fault() is None,
        refund_parties_differ(r),
        refund_on_ledger(r, ledger),
    ensures
        refund_on_ledger(
            Refund { accounts: r.accounts.settled(), program_id: r.program_id },
            run(r.spec_steps(), ledger),
        ),
        forall|k: Seq<u8>|
            k != r.accounts.maker.address@ && k != r.accounts.escrow_pda.address@ && k
                != r.accounts.vault_pda.address@ && k != r.accounts.maker_ata_a.address@
                ==> #[trigger] run(r.spec_steps(), ledger)[k] == ledger[k],
{
    let a = r.accounts;
    let s = seq![
        a.maker.address@,
        a.escrow_pda.address@,
        a.vault_pda.address@,
        a.maker_ata_a.address@,
    ];
    assert(s[0] != s[1] && s[0] != s[2] && s[0] != s[3]);
    assert(s[1] != s[2] && s[1] != s[3] && s[2] != s[3]);
    let steps = r.spec_steps();
    let l1 = apply(steps[0], ledger);
    let l2 = apply(steps[1], l1);
    let l3 = apply(steps[2], l2);
    assert(run(steps, ledger) == l3) by {
        reveal_with_fuel(run, 4);
        let r1 = steps.drop_first();
        let r2 = r1.drop_first();
        let r3 = r2.drop_first();
        assert(r1[0] == steps[1] && r2[0] == steps[2] && r3.len() == 0);
    }
}

} // verus!
