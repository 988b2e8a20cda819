use vstd::prelude::*;

use crate::contract::{create_effect, execute_effect, Ledger, MessageInfo, Response};
use crate::error::ContractError;
use crate::msg::ExecuteMsg;
use crate::state::{
    claims_from_raw, find_claim, find_claim_from, sum_amounts, BlockInfo, Claim, Coin, Lockbox,
    RawClaim, Scheduled, TransferIntent,
};

verus! {

/// A freshly created lockbox owes exactly the sum of its claims.
pub proof fn lemma_created_total_is_sum_of_claims(
    old: Ledger,
    new: Ledger,
    block: BlockInfo,
    owner: String,
    raw_claims: Seq<RawClaim>,
    expiration: Scheduled,
    native_token: Option<String>,
    cw20_addr: Option<String>,
    r: Result<Response, ContractError>,
)
    requires
        create_effect(old, new, block, owner, raw_claims, expiration, native_token, cw20_addr, r),
        r is Ok,
    ensures
        new.lockboxes@.last().total_amount == sum_amounts(claims_from_raw(raw_claims)),
        new.lockboxes@.last().total_amount == sum_amounts(new.lockboxes@.last().claims@),
{
}

/// No request changes the funding mode of a lockbox that exists, nor clears
/// its reset flag: both hold for the lockbox's whole lifetime.
pub proof fn lemma_execute_keeps_funding_and_reset(
    old: Ledger,
    new: Ledger,
    block: BlockInfo,
    info: MessageInfo,
    balances: Seq<Coin>,
    msg: ExecuteMsg,
    r: Result<Response, ContractError>,
)
    requires
        old.wf(),
        execute_effect(old, new, block, info, balances, msg, r),
    ensures
        new.lockboxes@.len() >= old.lockboxes@.len(),
        forall|k: int|
            0 <= k < old.lockboxes@.len() ==> {
                &&& (#[trigger] new.lockboxes@[k]).native_denom == old.lockboxes@[k].native_denom
                &&& new.lockboxes@[k].cw20_addr == old.lockboxes@[k].cw20_addr
                &&& (old.lockboxes@[k].reset ==> new.lockboxes@[k].reset)
            },
{
    match msg {
        ExecuteMsg::CreateLockbox { .. } => {
            if r is Ok {
                assert forall|k: int| 0 <= k < old.lockboxes@.len() implies new.lockboxes@[k]
                    == old.lockboxes@[k] by {
                    assert(new.lockboxes@.drop_last()[k] == new.lockboxes@[k]);
                }
            }
        },
        _ => {},
    }
}

/// On a lockbox without a configured native currency a native deposit is
/// refused as needing tokens; on one without a token ledger a token deposit
/// is refused as the wrong currency.
pub proof fn lemma_wrong_deposit_path_fails(
    lb: Lockbox,
    block: BlockInfo,
    funds: Seq<Coin>,
    sender: Seq<char>,
    amount: u128,
)
    requires
        !lb.expiration.triggered_at(block),
        !lb.reset,
    ensures
        lb.native_denom is None ==> lb.native_deposit_outcome(block, funds) == Err::<u128, _>(
            ContractError::CW20TokensRequired {},
        ),
        lb.cw20_addr is None ==> lb.cw20_deposit_outcome(block, sender, amount) == Err::<(), _>(
            ContractError::DenomNotSupported {},
        ),
{
}

/// A reset lockbox refuses every operation: a claim always with
/// `LockBoxReset`, and a reset or deposit with `LockBoxReset` until the
/// schedule fires, with `LockBoxExpired` after.
pub proof fn lemma_reset_refuses_everything(
    lb: Lockbox,
    block: BlockInfo,
    funds: Seq<Coin>,
    sender: Seq<char>,
    amount: u128,
    balances: Seq<Coin>,
)
    requires
        lb.reset,
    ensures
        lb.claim_outcome(block, sender, balances) == Err::<TransferIntent, _>(
            ContractError::LockBoxReset {},
        ),
        lb.reset_outcome(block) is Err,
        lb.native_deposit_outcome(block, funds) is Err,
        lb.cw20_deposit_outcome(block, sender, amount) is Err,
        !lb.expiration.triggered_at(block) ==> {
            &&& lb.reset_outcome(block) == Err::<Option<TransferIntent>, _>(
                ContractError::LockBoxReset {},
            )
            &&& lb.native_deposit_outcome(block, funds) == Err::<u128, _>(
                ContractError::LockBoxReset {},
            )
            &&& lb.cw20_deposit_outcome(block, sender, amount) == Err::<(), _>(
                ContractError::LockBoxReset {},
            )
        },
{
}

/// A claim is paid only on a lockbox that is not reset, has expired and is
/// fully funded, and only to a caller whose first claim is still unpaid.
pub proof fn lemma_claim_preconditions(
    lb: Lockbox,
    block: BlockInfo,
    sender: Seq<char>,
    balances: Seq<Coin>,
)
    requires
        lb.claim_outcome(block, sender, balances) is Ok,
    ensures
        !lb.reset,
        lb.expiration.triggered_at(block),
        lb.total_amount == 0,
        find_claim(lb.claims@, sender) is Some,
        !lb.claims@[find_claim(lb.claims@, sender).unwrap()].claimed,
{
}

/// Marking a claim as paid does not move any claimant's first claim.
proof fn lemma_find_claim_ignores_paid_flag(claims: Seq<Claim>, sender: Seq<char>, i: int, c: Claim, start: int)
    requires
        0 <= i < claims.len(),
        c.addr == claims[i].addr,
        0 <= start,
    ensures
        find_claim_from(claims.update(i, c), sender, start) == find_claim_from(claims, sender, start),
    decreases claims.len() - start,
{
    if start < claims.len() {
        lemma_find_claim_ignores_paid_flag(claims, sender, i, c, start + 1);
    }
}

/// Once a claimant has been paid, every later claim of theirs on the
/// expired lockbox fails with `AlreadyClaimed`, whatever the balances.
pub proof fn lemma_second_claim_fails(
    prev: Lockbox,
    lb: Lockbox,
    block: BlockInfo,
    later: BlockInfo,
    sender: Seq<char>,
    balances: Seq<Coin>,
    later_balances: Seq<Coin>,
)
    requires
        prev.claim_outcome(block, sender, balances) is Ok,
        lb.is_paid_out_from(prev, sender),
        lb.expiration.triggered_at(later),
    ensures
        lb.claim_outcome(later, sender, later_balances) == Err::<TransferIntent, _>(
            ContractError::AlreadyClaimed {},
        ),
{
    let i = find_claim(prev.claims@, sender).unwrap();
    let c = prev.claims@[i];
    lemma_find_claim_ignores_paid_flag(
        prev.claims@,
        sender,
        i,
        Claim { addr: c.addr, amount: c.amount, claimed: true },
        0,
    );
}

} // verus!
