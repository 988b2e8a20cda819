use vstd::prelude::*;

use crate::error::ContractError;

verus! {

/// The chain position at which a request executes.
#[derive(Clone, Copy, Debug, PartialEq, Eq, Structural)]
pub struct BlockInfo {
    pub height: u64,
    /// Block time, in nanoseconds since the Unix epoch.
    pub time: u64,
}

/// The point after which a lockbox counts as expired: a block height, or a
/// block time in nanoseconds since the Unix epoch.
#[derive(Clone, Copy, Debug, PartialEq, Eq, Structural)]
pub enum Scheduled {
    AtHeight(u64),
    AtTime(u64),
}

impl Scheduled {
    /// The schedule has fired once the block reaches its height or time.
    pub open spec fn triggered_at(self, block: BlockInfo) -> bool {
        match self {
            Scheduled::AtHeight(h) => block.height >= h,
            Scheduled::AtTime(t) => block.time >= t,
        }
    }

    pub fn is_triggered(&self, block: &BlockInfo) -> (r: bool)
        ensures
            r == self.triggered_at(*block),
    {
        match self {
            Scheduled::AtHeight(h) => block.height >= *h,
            Scheduled::AtTime(t) => block.time >= *t,
        }
    }
}

/// An amount of one native currency.
#[derive(Debug, PartialEq, Eq)]
pub struct Coin {
    pub denom: String,
    pub amount: u128,
}

impl Clone for Coin {
    fn clone(&self) -> (r: Self)
        ensures
            r == *self,
    {
        Coin { denom: self.denom.clone(), amount: self.amount }
    }
}

/// One claimant's fixed entitlement within a lockbox.
#[derive(Debug, PartialEq, Eq)]
pub struct Claim {
    pub addr: String,
    pub amount: u128,
    pub claimed: bool,
}

impl Clone for Claim {
    fn clone(&self) -> (r: Self)
        ensures
            r == *self,
    {
        Claim { addr: self.addr.clone(), amount: self.amount, claimed: self.claimed }
    }
}

/// A claimant and amount as requested at creation time.
#[derive(Debug, PartialEq, Eq)]
pub struct RawClaim {
    pub addr: String,
    pub amount: u128,
}

impl Clone for RawClaim {
    fn clone(&self) -> (r: Self)
        ensures
            r == *self,
    {
        RawClaim { addr: self.addr.clone(), amount: self.amount }
    }
}

/// The sum of the entitlements of a list of claims.
pub open spec fn sum_amounts(claims: Seq<Claim>) -> int
    decreases claims.len(),
{
    if claims.len() == 0 {
        0
    } else {
        sum_amounts(claims.drop_last()) + claims.last().amount
    }
}

/// The claims a lockbox starts with: one unpaid claim per requested entry,
/// in the same order.
pub open spec fn claims_from_raw(raw: Seq<RawClaim>) -> Seq<Claim> {
    raw.map_values(|c: RawClaim| Claim { addr: c.addr, amount: c.amount, claimed: false })
}

/// Exactly one of the two funding modes is chosen.
pub open spec fn funding_is_exclusive(native: Option<String>, cw20: Option<String>) -> bool {
    native.is_some() != cw20.is_some()
}

/// Why creating a lockbox fails, checked in order; `None` when it succeeds.
pub open spec fn creation_error(
    block: BlockInfo,
    raw_claims: Seq<RawClaim>,
    expiration: Scheduled,
    native_token: Option<String>,
    cw20_addr: Option<String>,
) -> Option<ContractError> {
    if expiration.triggered_at(block) {
        Some(ContractError::LockBoxExpired {})
    } else if !funding_is_exclusive(native_token, cw20_addr) {
        Some(ContractError::DenomNotSupported {})
    } else if sum_amounts(claims_from_raw(raw_claims)) > u128::MAX {
        Some(ContractError::ArithmeticFault {})
    } else {
        None
    }
}

/// A prefix of a list of claims never sums to more than the whole list.
pub proof fn lemma_sum_prefix_le(claims: Seq<Claim>, i: int)
    requires
        0 <= i <= claims.len(),
    ensures
        0 <= sum_amounts(claims.subrange(0, i)) <= sum_amounts(claims),
    decreases claims.len(),
{
    if claims.len() > 0 {
        if i == claims.len() {
            assert(claims.subrange(0, i) =~= claims);
            lemma_sum_prefix_le(claims.drop_last(), i - 1);
        } else {
            assert(claims.drop_last().subrange(0, i) =~= claims.subrange(0, i));
            lemma_sum_prefix_le(claims.drop_last(), i);
        }
    }
}

/// Replacing one claim by another with the same amount keeps the sum.
pub proof fn lemma_sum_update_same_amount(claims: Seq<Claim>, i: int, c: Claim)
    requires
        0 <= i < claims.len(),
        c.amount == claims[i].amount,
    ensures
        sum_amounts(claims.update(i, c)) == sum_amounts(claims),
    decreases claims.len(),
{
    let u = claims.update(i, c);
    if i < claims.len() - 1 {
        assert(u.drop_last() =~= claims.drop_last().update(i, c));
        lemma_sum_update_same_amount(claims.drop_last(), i, c);
    } else {
        assert(u.drop_last() =~= claims.drop_last());
    }
}

/// A transfer the host executes once the request commits.
#[derive(Debug, PartialEq, Eq)]
pub enum TransferIntent {
    /// Send `amount` of the native currency `denom` to `to_address`.
    Bank { to_address: String, denom: String, amount: u128 },
    /// Ask the token ledger at `contract_addr` to move `amount` to `recipient`.
    Cw20 { contract_addr: String, recipient: String, amount: u128 },
}

/// Position of the first claim of `addr` at or after `start`.
pub open spec fn find_claim_from(claims: Seq<Claim>, addr: Seq<char>, start: int) -> Option<int>
    decreases claims.len() - start,
{
    if start < 0 || start >= claims.len() {
        None
    } else if claims[start].addr@ == addr {
        Some(start)
    } else {
        find_claim_from(claims, addr, start + 1)
    }
}

/// Position of the first claim of `addr`.
pub open spec fn find_claim(claims: Seq<Claim>, addr: Seq<char>) -> Option<int> {
    find_claim_from(claims, addr, 0)
}

/// Position of the first coin of currency `denom` at or after `start`.
pub open spec fn find_coin_from(coins: Seq<Coin>, denom: Seq<char>, start: int) -> Option<int>
    decreases coins.len() - start,
{
    if start < 0 || start >= coins.len() {
        None
    } else if coins[start].denom@ == denom {
        Some(start)
    } else {
        find_coin_from(coins, denom, start + 1)
    }
}

/// Position of the first coin of currency `denom`.
pub open spec fn find_coin(coins: Seq<Coin>, denom: Seq<char>) -> Option<int> {
    find_coin_from(coins, denom, 0)
}

/// How much of `denom` a list of balances holds: the first entry of that
/// currency, or nothing.
pub open spec fn balance_of(coins: Seq<Coin>, denom: Seq<char>) -> u128 {
    match find_coin(coins, denom) {
        Some(i) => coins[i].amount,
        None => 0,
    }
}

/// Finds the first claim of `addr`.
pub fn position_of_claim(claims: &Vec<Claim>, addr: &String) -> (r: Option<usize>)
    ensures
        r matches Some(i) ==> i < claims.len() && find_claim(claims@, addr@) == Some(i as int),
        r is None ==> find_claim(claims@, addr@) is None,
{
    let mut i: usize = 0;
    while i < claims.len()
        invariant
            0 <= i <= claims.len(),
            find_claim(claims@, addr@) == find_claim_from(claims@, addr@, i as int),
        decreases claims.len() - i,
    {
        if claims[i].addr == *addr {
            return Some(i);
        }
        i = i + 1;
    }
    None
}

/// Finds the first coin of currency `denom`.
pub fn position_of_coin(coins: &Vec<Coin>, denom: &String) -> (r: Option<usize>)
    ensures
        r matches Some(i) ==> i < coins.len() && find_coin(coins@, denom@) == Some(i as int),
        r is None ==> find_coin(coins@, denom@) is None,
{
    let mut i: usize = 0;
    while i < coins.len()
        invariant
            0 <= i <= coins.len(),
            find_coin(coins@, denom@) == find_coin_from(coins@, denom@, i as int),
        decreases coins.len() - i,
    {
        if coins[i].denom == *denom {
            return Some(i);
        }
        i = i + 1;
    }
    None
}

/// The sum of the entitlements, when it fits in a `u128`.
pub fn sum_of_claims(claims: &Vec<Claim>) -> (r: Option<u128>)
    ensures
        r matches Some(s) ==> s == sum_amounts(claims@),
        r is None ==> sum_amounts(claims@) > u128::MAX,
{
    let mut total: u128 = 0;
    let mut i: usize = 0;
    while i < claims.len()
        invariant
            0 <= i <= claims.len(),
            total == sum_amounts(claims@.subrange(0, i as int)),
        decreases claims.len() - i,
    {
        assert(claims@.subrange(0, i + 1).drop_last() =~= claims@.subrange(0, i as int));
        if claims[i].amount > u128::MAX - total {
            proof {
                lemma_sum_prefix_le(claims@, i + 1);
            }
            return None;
        }
        total = total + claims[i].amount;
        i = i + 1;
    }
    assert(claims@.subrange(0, i as int) =~= claims@);
    Some(total)
}

/// An escrow unit: funds owed by depositors, released to claimants once the
/// expiration schedule fires, or paid back to the owner on reset.
#[derive(Debug, PartialEq, Eq)]
pub struct Lockbox {
    pub id: u64,
    pub owner: String,
    pub claims: Vec<Claim>,
    pub expiration: Scheduled,
    /// The amount still owed before the lockbox is fully funded.
    pub total_amount: u128,
    pub reset: bool,
    pub native_denom: Option<String>,
    pub cw20_addr: Option<String>,
}

impl Lockbox {
    /// Exactly one funding mode is set, the entitlements sum to a `u128`, and
    /// no more than that sum is still owed.
    pub open spec fn wf(self) -> bool {
        &&& funding_is_exclusive(self.native_denom, self.cw20_addr)
        &&& sum_amounts(self.claims@) <= u128::MAX
        &&& self.total_amount <= sum_amounts(self.claims@)
    }

    /// What depositors have paid in so far.
    pub open spec fn deposited(self) -> int {
        sum_amounts(self.claims@) - self.total_amount
    }

    /// `self` is the lockbox that creation makes from these arguments.
    pub open spec fn is_created_from(
        self,
        id: u64,
        owner: String,
        raw_claims: Seq<RawClaim>,
        expiration: Scheduled,
        native_token: Option<String>,
        cw20_addr: Option<String>,
    ) -> bool {
        &&& self.id == id
        &&& self.owner == owner
        &&& self.claims@ == claims_from_raw(raw_claims)
        &&& self.expiration == expiration
        &&& self.total_amount == sum_amounts(self.claims@)
        &&& !self.reset
        &&& self.native_denom == native_token
        &&& self.cw20_addr == cw20_addr
    }

    /// Makes lockbox `id` with every claim unpaid and the full sum of the
    /// entitlements outstanding.
    pub fn create(
        id: u64,
        block: &BlockInfo,
        owner: String,
        raw_claims: &Vec<RawClaim>,
        expiration: Scheduled,
        native_token: Option<String>,
        cw20_addr: Option<String>,
    ) -> (r: Result<Lockbox, ContractError>)
        ensures
            r is Err <==> creation_error(*block, raw_claims@, expiration, native_token, cw20_addr) is Some,
            r matches Err(e) ==> creation_error(*block, raw_claims@, expiration, native_token, cw20_addr)
                == Some(e),
            r matches Ok(lb) ==> lb.wf() && lb.is_created_from(
                id,
                owner,
                raw_claims@,
                expiration,
                native_token,
                cw20_addr,
            ),
    {
        if expiration.is_triggered(block) {
            return Err(ContractError::LockBoxExpired {});
        }
        if native_token.is_some() == cw20_addr.is_some() {
            return Err(ContractError::DenomNotSupported {});
        }
        let ghost wanted = claims_from_raw(raw_claims@);
        let n = raw_claims.len();
        let mut claims: Vec<Claim> = Vec::new();
        let mut total: u128 = 0;
        let mut i: usize = 0;
        while i < n
            invariant
                n == raw_claims.len(),
                wanted == claims_from_raw(raw_claims@),
                !expiration.triggered_at(*block),
                funding_is_exclusive(native_token, cw20_addr),
                0 <= i <= n,
                claims@ == wanted.subrange(0, i as int),
                total == sum_amounts(claims@),
            decreases n - i,
        {
            let amount = raw_claims[i].amount;
            let claim = Claim { addr: raw_claims[i].addr.clone(), amount, claimed: false };
            assert(wanted.subrange(0, i + 1).drop_last() =~= wanted.subrange(0, i as int));
            assert(wanted[i as int] == claim);
            if amount > u128::MAX - total {
                proof {
                    lemma_sum_prefix_le(wanted, i + 1);
                }
                return Err(ContractError::ArithmeticFault {});
            }
            total = total + amount;
            claims.push(claim);
            i = i + 1;
            assert(claims@ =~= wanted.subrange(0, i as int));
        }
        assert(claims@ =~= wanted);
        Ok(
            Lockbox {
                id,
                owner,
                claims,
                expiration,
                total_amount: total,
                reset: false,
                native_denom: native_token,
                cw20_addr,
            },
        )
    }

    /// The parts fixed at creation are the same in both lockboxes.
    pub open spec fn same_terms(self, other: Lockbox) -> bool {
        &&& self.id == other.id
        &&& self.owner == other.owner
        &&& self.expiration == other.expiration
        &&& self.native_denom == other.native_denom
        &&& self.cw20_addr == other.cw20_addr
    }

    /// A transfer of `amount` to `to` in the lockbox's funding mode.
    pub open spec fn payout_to(self, to: String, amount: u128) -> TransferIntent {
        match self.native_denom {
            Some(denom) => TransferIntent::Bank { to_address: to, denom, amount },
            None => TransferIntent::Cw20 {
                contract_addr: self.cw20_addr.unwrap(),
                recipient: to,
                amount,
            },
        }
    }

    /// What a reset sends back to the owner: everything deposited so far,
    /// or nothing when nothing was.
    pub open spec fn payback(self) -> Option<TransferIntent> {
        if self.deposited() == 0 {
            None
        } else {
            Some(self.payout_to(self.owner, self.deposited() as u128))
        }
    }

    /// The result of a reset at `block`.
    pub open spec fn reset_outcome(self, block: BlockInfo) -> Result<Option<TransferIntent>, ContractError> {
        if self.expiration.triggered_at(block) {
            Err(ContractError::LockBoxExpired {})
        } else if self.reset {
            Err(ContractError::LockBoxReset {})
        } else if sum_amounts(self.claims@) > u128::MAX || self.total_amount > sum_amounts(
            self.claims@,
        ) {
            Err(ContractError::ArithmeticFault {})
        } else if self.deposited() != 0 && !funding_is_exclusive(self.native_denom, self.cw20_addr) {
            Err(ContractError::Unauthorized {})
        } else {
            Ok(self.payback())
        }
    }

    /// The result of a native-currency deposit of the attached `funds`: the
    /// amount of the first coin in the lockbox's currency.
    pub open spec fn native_deposit_outcome(self, block: BlockInfo, funds: Seq<Coin>) -> Result<
        u128,
        ContractError,
    > {
        if self.expiration.triggered_at(block) {
            Err(ContractError::LockBoxExpired {})
        } else if self.reset {
            Err(ContractError::LockBoxReset {})
        } else if self.native_denom is None {
            Err(ContractError::CW20TokensRequired {})
        } else {
            match find_coin(funds, self.native_denom.unwrap()@) {
                None => Err(ContractError::DenomNotSupported {}),
                Some(k) => if funds[k].amount > self.total_amount {
                    Err(ContractError::ArithmeticFault {})
                } else {
                    Ok(funds[k].amount)
                },
            }
        }
    }

    /// The result of a deposit of `amount` forwarded by `sender` as a token
    /// ledger.
    pub open spec fn cw20_deposit_outcome(self, block: BlockInfo, sender: Seq<char>, amount: u128) -> Result<
        (),
        ContractError,
    > {
        if self.expiration.triggered_at(block) {
            Err(ContractError::LockBoxExpired {})
        } else if self.reset {
            Err(ContractError::LockBoxReset {})
        } else if self.cw20_addr is None {
            Err(ContractError::DenomNotSupported {})
        } else if self.cw20_addr.unwrap()@ != sender {
            Err(ContractError::Unauthorized {})
        } else if amount > self.total_amount {
            Err(ContractError::ArithmeticFault {})
        } else {
            Ok(())
        }
    }

    /// The result of a claim by `sender`: a transfer of the first matching
    /// claim's amount to its address, or why it fails.
    pub open spec fn claim_outcome(self, block: BlockInfo, sender: Seq<char>, balances: Seq<Coin>) -> Result<
        TransferIntent,
        ContractError,
    > {
        match self.claim_error(block, sender, balances) {
            Some(e) => Err(e),
            None => {
                let c = self.claims@[find_claim(self.claims@, sender).unwrap()];
                Ok(self.payout_to(c.addr, c.amount))
            },
        }
    }

    /// `self` is `prev` after the first claim of `sender` was paid.
    pub open spec fn is_paid_out_from(self, prev: Lockbox, sender: Seq<char>) -> bool {
        let i = find_claim(prev.claims@, sender).unwrap();
        let c = prev.claims@[i];
        &&& find_claim(prev.claims@, sender) is Some
        &&& 0 <= i < prev.claims@.len()
        &&& self.claims@ == prev.claims@.update(i, Claim { addr: c.addr, amount: c.amount, claimed: true })
        &&& self.same_terms(prev)
        &&& self.total_amount == prev.total_amount
        &&& self.reset == prev.reset
    }

    /// Builds the transfer of `amount` to `to` in the lockbox's funding mode.
    fn make_payout(&self, to: &String, amount: u128) -> (r: Result<TransferIntent, ContractError>)
        ensures
            funding_is_exclusive(self.native_denom, self.cw20_addr) ==> r == Ok::<_, ContractError>(
                self.payout_to(*to, amount),
            ),
            !funding_is_exclusive(self.native_denom, self.cw20_addr) ==> r == Err::<TransferIntent, _>(
                ContractError::Unauthorized {},
            ),
    {
        match (&self.cw20_addr, &self.native_denom) {
            (Some(_), Some(_)) => Err(ContractError::Unauthorized {}),
            (None, None) => Err(ContractError::Unauthorized {}),
            (Some(cw20), None) => Ok(
                TransferIntent::Cw20 { contract_addr: cw20.clone(), recipient: to.clone(), amount },
            ),
            (None, Some(denom)) => Ok(
                TransferIntent::Bank { to_address: to.clone(), denom: denom.clone(), amount },
            ),
        }
    }

    /// Revokes the lockbox for good and returns what was deposited to the
    /// owner.
    pub fn reset_lockbox(&mut self, block: &BlockInfo) -> (r: Result<
        Option<TransferIntent>,
        ContractError,
    >)
        ensures
            r == old(self).reset_outcome(*block),
            r is Err ==> *final(self) == *old(self),
            r is Ok ==> {
                &&& final(self).same_terms(*old(self))
                &&& final(self).claims@ == old(self).claims@
                &&& final(self).total_amount == old(self).total_amount
                &&& final(self).reset
                &&& !old(self).reset
            },
    {
        if self.expiration.is_triggered(block) {
            return Err(ContractError::LockBoxExpired {});
        }
        if self.reset {
            return Err(ContractError::LockBoxReset {});
        }
        let sum = match sum_of_claims(&self.claims) {
            Some(s) => s,
            None => {
                return Err(ContractError::ArithmeticFault {});
            },
        };
        if sum < self.total_amount {
            return Err(ContractError::ArithmeticFault {});
        }
        let payback_amount = sum - self.total_amount;
        let payback = if payback_amount != 0 {
            let owner = self.owner.clone();
            match self.make_payout(&owner, payback_amount) {
                Ok(t) => Some(t),
                Err(e) => {
                    return Err(e);
                },
            }
        } else {
            None
        };
        self.reset = true;
        Ok(payback)
    }

    /// Applies a native-currency deposit taken from the attached `funds`, and
    /// returns the amount applied.
    pub fn deposit_native(&mut self, block: &BlockInfo, funds: &Vec<Coin>) -> (r: Result<
        u128,
        ContractError,
    >)
        ensures
            r == old(self).native_deposit_outcome(*block, funds@),
            r is Err ==> *final(self) == *old(self),
            r matches Ok(amount) ==> {
                &&& final(self).same_terms(*old(self))
                &&& final(self).claims@ == old(self).claims@
                &&& final(self).reset == old(self).reset
                &&& final(self).total_amount == old(self).total_amount - amount
            },
    {
        if self.expiration.is_triggered(block) {
            return Err(ContractError::LockBoxExpired {});
        }
        if self.reset {
            return Err(ContractError::LockBoxReset {});
        }
        let k = match &self.native_denom {
            None => {
                return Err(ContractError::CW20TokensRequired {});
            },
            Some(denom) => position_of_coin(funds, denom),
        };
        let amount = match k {
            None => {
                return Err(ContractError::DenomNotSupported {});
            },
            Some(k) => funds[k].amount,
        };
        if amount > self.total_amount {
            return Err(ContractError::ArithmeticFault {});
        }
        self.total_amount = self.total_amount - amount;
        Ok(amount)
    }

    /// Applies a deposit forwarded by the token ledger `sender`.
    pub fn deposit(&mut self, block: &BlockInfo, sender: &String, amount: u128) -> (r: Result<
        (),
        ContractError,
    >)
        ensures
            r == old(self).cw20_deposit_outcome(*block, sender@, amount),
            r is Err ==> *final(self) == *old(self),
            r is Ok ==> {
                &&& final(self).same_terms(*old(self))
                &&& final(self).claims@ == old(self).claims@
                &&& final(self).reset == old(self).reset
                &&& final(self).total_amount == old(self).total_amount - amount
            },
    {
        if self.expiration.is_triggered(block) {
            return Err(ContractError::LockBoxExpired {});
        }
        if self.reset {
            return Err(ContractError::LockBoxReset {});
        }
        match &self.cw20_addr {
            None => {
                return Err(ContractError::DenomNotSupported {});
            },
            Some(cw20) => {
                if *sender != *cw20 {
                    return Err(ContractError::Unauthorized {});
                }
            },
        }
        if amount > self.total_amount {
            return Err(ContractError::ArithmeticFault {});
        }
        self.total_amount = self.total_amount - amount;
        Ok(())
    }

    /// Why a claim by `sender` fails, checked in order; `None` when it is
    /// payable.
    pub open spec fn claim_error(self, block: BlockInfo, sender: Seq<char>, balances: Seq<Coin>) -> Option<
        ContractError,
    > {
        if self.reset {
            Some(ContractError::LockBoxReset {})
        } else if !self.expiration.triggered_at(block) {
            Some(ContractError::LockBoxNotExpired {})
        } else if self.total_amount != 0 {
            Some(ContractError::DepositClaimImbalance {})
        } else {
            match find_claim(self.claims@, sender) {
                None => Some(ContractError::Unauthorized {}),
                Some(i) => if self.claims@[i].claimed {
                    Some(ContractError::AlreadyClaimed {})
                } else if !funding_is_exclusive(self.native_denom, self.cw20_addr) {
                    Some(ContractError::Unauthorized {})
                } else if self.native_denom is Some && balance_of(
                    balances,
                    self.native_denom.unwrap()@,
                ) < self.claims@[i].amount {
                    Some(ContractError::InsufficientFunds {})
                } else {
                    None
                },
            }
        }
    }

    /// Pays `sender` their entitlement, given the contract's own native
    /// `balances`, and marks their claim as paid.
    pub fn claim(&mut self, block: &BlockInfo, sender: &String, balances: &Vec<Coin>) -> (r: Result<
        TransferIntent,
        ContractError,
    >)
        ensures
            r == old(self).claim_outcome(*block, sender@, balances@),
            r is Err ==> *final(self) == *old(self),
            r is Ok ==> final(self).is_paid_out_from(*old(self), sender@),
    {
        if self.reset {
            return Err(ContractError::LockBoxReset {});
        }
        if !self.expiration.is_triggered(block) {
            return Err(ContractError::LockBoxNotExpired {});
        }
        if self.total_amount != 0 {
            return Err(ContractError::DepositClaimImbalance {});
        }
        let i = match position_of_claim(&self.claims, sender) {
            None => {
                return Err(ContractError::Unauthorized {});
            },
            Some(i) => i,
        };
        if self.claims[i].claimed {
            return Err(ContractError::AlreadyClaimed {});
        }
        let addr = self.claims[i].addr.clone();
        let amount = self.claims[i].amount;
        let transfer = match self.make_payout(&addr, amount) {
            Ok(t) => t,
            Err(e) => {
                return Err(e);
            },
        };
        if let Some(denom) = &self.native_denom {
            let available = match position_of_coin(balances, denom) {
                Some(k) => balances[k].amount,
                None => 0,
            };
            if available < amount {
                return Err(ContractError::InsufficientFunds {});
            }
        }
        let ghost before = self.claims@;
        self.claims.set(i, Claim { addr, amount, claimed: true });
        proof {
            assert(self.claims@ =~= before.update(
                i as int,
                Claim { addr: before[i as int].addr, amount: before[i as int].amount, claimed: true },
            ));
        }
        Ok(transfer)
    }
}

} // verus!
