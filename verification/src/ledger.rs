use crate::address::Address;
use crate::settlement::{harvest_result, stake_result, unstake_result};
use crate::state::{ProgramState, StakingAccount};
use vstd::prelude::*;

verus! {

/// The staking records of a deployment, one place per depositor; `None` where
/// the depositor has not staked yet.
pub type Ledger = Seq<Option<StakingAccount>>;

/// One request against the record at place `slot`, with everything that the
/// settlement rules read.
pub enum LedgerStep {
    Stake { slot: int, config: ProgramState, caller: Address, signed: bool, amount: u64, now: i64 },
    Unstake {
        slot: int,
        config: ProgramState,
        caller: Address,
        signed: bool,
        amount: u64,
        pool_balance: Option<u64>,
        now: i64,
    },
    Harvest {
        slot: int,
        config: ProgramState,
        caller: Address,
        signed: bool,
        pool_balance: Option<u64>,
        now: i64,
    },
}

/// Principal held on one place of the ledger.
pub open spec fn staked_on(entry: Option<StakingAccount>) -> nat {
    match entry {
        Some(account) => account.staked_amount as nat,
        None => 0,
    }
}

/// Principal held on all records together.
pub open spec fn total_staked(ledger: Ledger) -> nat
    decreases ledger.len(),
{
    if ledger.len() == 0 {
        0
    } else {
        total_staked(ledger.drop_last()) + staked_on(ledger.last())
    }
}

/// The ledger after one request: the record that the settlement rules give
/// where they accept the request, the ledger as it was where they refuse it.
pub open spec fn apply_step(ledger: Ledger, step: LedgerStep) -> Ledger {
    match step {
        LedgerStep::Stake { slot, config, caller, signed, amount, now } => {
            if 0 <= slot < ledger.len() {
                match stake_result(ledger[slot], config, caller, signed, amount, now) {
                    Ok(account) => ledger.update(slot, Some(account)),
                    Err(_) => ledger,
                }
            } else {
                ledger
            }
        },
        LedgerStep::Unstake { slot, config, caller, signed, amount, pool_balance, now } => {
            if 0 <= slot < ledger.len() && ledger[slot] is Some {
                match unstake_result(
                    ledger[slot]->0,
                    config,
                    caller,
                    signed,
                    amount,
                    pool_balance,
                    now,
                ) {
                    Ok(settled) => ledger.update(slot, Some(settled.account)),
                    Err(_) => ledger,
                }
            } else {
                ledger
            }
        },
        LedgerStep::Harvest { slot, config, caller, signed, pool_balance, now } => {
            if 0 <= slot < ledger.len() && ledger[slot] is Some {
                match harvest_result(ledger[slot]->0, config, caller, signed, pool_balance, now) {
                    Ok(settled) => ledger.update(slot, Some(settled.account)),
                    Err(_) => ledger,
                }
            } else {
                ledger
            }
        },
    }
}

/// Principal that one request brings in: its amount where it is an accepted
/// stake, nothing otherwise.
pub open spec fn step_deposit(ledger: Ledger, step: LedgerStep) -> nat {
    match step {
        LedgerStep::Stake { slot, config, caller, signed, amount, now } => {
            if 0 <= slot < ledger.len() && stake_result(
                ledger[slot],
                config,
                caller,
                signed,
                amount,
                now,
            ) is Ok {
                amount as nat
            } else {
                0
            }
        },
        _ => 0,
    }
}

/// Principal that one request takes out: its amount where it is an accepted
/// withdrawal, nothing otherwise.
pub open spec fn step_withdrawal(ledger: Ledger, step: LedgerStep) -> nat {
    match step {
        LedgerStep::Unstake { slot, config, caller, signed, amount, pool_balance, now } => {
            if 0 <= slot < ledger.len() && ledger[slot] is Some && unstake_result(
                ledger[slot]->0,
                config,
                caller,
                signed,
                amount,
                pool_balance,
                now,
            ) is Ok {
                amount as nat
            } else {
                0
            }
        },
        _ => 0,
    }
}

/// The ledger after a run of requests, first to last.
pub open spec fn run(ledger: Ledger, steps: Seq<LedgerStep>) -> Ledger
    decreases steps.len(),
{
    if steps.len() == 0 {
        ledger
    } else {
        apply_step(run(ledger, steps.drop_last()), steps.last())
    }
}

/// Principal ever staked over a run of requests.
pub open spec fn ever_staked(ledger: Ledger, steps: Seq<LedgerStep>) -> nat
    decreases steps.len(),
{
    if steps.len() == 0 {
        0
    } else {
        ever_staked(ledger, steps.drop_last()) + step_deposit(
            run(ledger, steps.drop_last()),
            steps.last(),
        )
    }
}

/// Principal ever unstaked over a run of requests.
pub open spec fn ever_unstaked(ledger: Ledger, steps: Seq<LedgerStep>) -> nat
    decreases steps.len(),
{
    if steps.len() == 0 {
        0
    } else {
        ever_unstaked(ledger, steps.drop_last()) + step_withdrawal(
            run(ledger, steps.drop_last()),
            steps.last(),
        )
    }
}

/// Replacing one record changes the total by the difference on that record.
pub proof fn lemma_total_staked_update(ledger: Ledger, slot: int, entry: Option<StakingAccount>)
    requires
        0 <= slot < ledger.len(),
    ensures
        total_staked(ledger.update(slot, entry)) + staked_on(ledger[slot]) == total_staked(ledger)
            + staked_on(entry),
    decreases ledger.len(),
{
    let updated = ledger.update(slot, entry);
    if slot == ledger.len() - 1 {
        assert(updated.drop_last() =~= ledger.drop_last());
    } else {
        assert(updated.drop_last() =~= ledger.drop_last().update(slot, entry));
        lemma_total_staked_update(ledger.drop_last(), slot, entry);
    }
}

/// One request changes the total by what it brings in less what it takes out,
/// and keeps the number of places.
pub proof fn lemma_step_conserves(ledger: Ledger, step: LedgerStep)
    ensures
        apply_step(ledger, step).len() == ledger.len(),
        total_staked(apply_step(ledger, step)) + step_withdrawal(ledger, step) == total_staked(
            ledger,
        ) + step_deposit(ledger, step),
{
    match step {
        LedgerStep::Stake { slot, config, caller, signed, amount, now } => {
            if 0 <= slot < ledger.len() {
                match stake_result(ledger[slot], config, caller, signed, amount, now) {
                    Ok(account) => {
                        lemma_total_staked_update(ledger, slot, Some(account));
                    },
                    Err(_) => {},
                }
            }
        },
        LedgerStep::Unstake { slot, config, caller, signed, amount, pool_balance, now } => {
            if 0 <= slot < ledger.len() && ledger[slot] is Some {
                match unstake_result(
                    ledger[slot]->0,
                    config,
                    caller,
                    signed,
                    amount,
                    pool_balance,
                    now,
                ) {
                    Ok(settled) => {
                        lemma_total_staked_update(ledger, slot, Some(settled.account));
                    },
                    Err(_) => {},
                }
            }
        },
        LedgerStep::Harvest { slot, config, caller, signed, pool_balance, now } => {
            if 0 <= slot < ledger.len() && ledger[slot] is Some {
                match harvest_result(ledger[slot]->0, config, caller, signed, pool_balance, now) {
                    Ok(settled) => {
                        lemma_total_staked_update(ledger, slot, Some(settled.account));
                    },
                    Err(_) => {},
                }
            }
        },
    }
}

/// Over any run of requests, the principal on all records together is what was
/// there at the start, plus all that was ever staked, less all that was ever
/// unstaked.
pub proof fn lemma_conservation(ledger: Ledger, steps: Seq<LedgerStep>)
    ensures
        run(ledger, steps).len() == ledger.len(),
        total_staked(run(ledger, steps)) + ever_unstaked(ledger, steps) == total_staked(ledger)
            + ever_staked(ledger, steps),
    decreases steps.len(),
{
    if steps.len() > 0 {
        lemma_conservation(ledger, steps.drop_last());
        lemma_step_conserves(run(ledger, steps.drop_last()), steps.last());
    }
}

/// Starting with nothing staked, the principal on all records together never
/// exceeds what was ever staked less what was ever unstaked.
pub proof fn lemma_staked_never_exceeds_deposits(ledger: Ledger, steps: Seq<LedgerStep>)
    requires
        total_staked(ledger) == 0,
    ensures
        ever_unstaked(ledger, steps) <= ever_staked(ledger, steps),
        total_staked(run(ledger, steps)) <= ever_staked(ledger, steps) - ever_unstaked(
            ledger,
            steps,
        ),
{
    lemma_conservation(ledger, steps);
}

} // verus!
