use vstd::prelude::*;

use crate::state::{Claim, Lockbox, RawClaim, Scheduled};

verus! {

/// Instantiation takes no parameters.
#[derive(Clone, Copy, Debug, PartialEq, Eq, Structural)]
pub struct InstantiateMsg {}

/// A token transfer forwarded by a token ledger, with its payload decoded.
#[derive(Debug, PartialEq, Eq)]
pub struct Cw20ReceiveMsg {
    /// Who sent the tokens to the token ledger.
    pub sender: String,
    pub amount: u128,
    pub msg: ReceiveMsg,
}

/// The requests that change the ledger.
#[derive(Debug, PartialEq, Eq)]
pub enum ExecuteMsg {
    CreateLockbox {
        owner: String,
        raw_claims: Vec<RawClaim>,
        expiration: Scheduled,
        native_token: Option<String>,
        cw20_addr: Option<String>,
    },
    Reset { id: u64 },
    Deposit { id: u64 },
    Receive(Cw20ReceiveMsg),
    Claim { id: u64 },
}

/// What a token-ledger transfer asks the escrow to do with the tokens.
#[derive(Clone, Copy, Debug, PartialEq, Eq, Structural)]
pub enum ReceiveMsg {
    Deposit { id: u64 },
}

/// The read-only requests.
#[derive(Clone, Copy, Debug, PartialEq, Eq, Structural)]
pub enum QueryMsg {
    GetLockBox { id: u64 },
    ListLockBoxes { start_after: Option<u64>, limit: Option<u32> },
}

/// A lockbox as reported to readers.
#[derive(Debug, PartialEq, Eq)]
pub struct LockBoxResponse {
    pub id: u64,
    pub owner: String,
    pub claims: Vec<Claim>,
    pub expiration: Scheduled,
    pub total_amount: u128,
    pub reset: bool,
    pub native_denom: Option<String>,
    pub cw20_addr: Option<String>,
}

impl LockBoxResponse {
    /// The response reports exactly the fields of `lb`.
    pub open spec fn reports(self, lb: Lockbox) -> bool {
        &&& self.id == lb.id
        &&& self.owner == lb.owner
        &&& self.claims@ == lb.claims@
        &&& self.expiration == lb.expiration
        &&& self.total_amount == lb.total_amount
        &&& self.reset == lb.reset
        &&& self.native_denom == lb.native_denom
        &&& self.cw20_addr == lb.cw20_addr
    }
}

impl LockBoxResponse {
    /// Reports the current fields of `lb`.
    pub fn of(lb: &Lockbox) -> (r: LockBoxResponse)
        ensures
            r.reports(*lb),
    {
        let claims = lb.claims.clone();
        proof {
            assert(claims@ =~= lb.claims@);
        }
        LockBoxResponse {
            id: lb.id,
            owner: lb.owner.clone(),
            claims,
            expiration: lb.expiration,
            total_amount: lb.total_amount,
            reset: lb.reset,
            native_denom: lb.native_denom.clone(),
            cw20_addr: lb.cw20_addr.clone(),
        }
    }
}

impl From<Lockbox> for LockBoxResponse {
    fn from(lb: Lockbox) -> (r: LockBoxResponse) {
        LockBoxResponse {
            id: lb.id,
            owner: lb.owner,
            claims: lb.claims,
            expiration: lb.expiration,
            total_amount: lb.total_amount,
            reset: lb.reset,
            native_denom: lb.native_denom,
            cw20_addr: lb.cw20_addr,
        }
    }
}

impl vstd::std_specs::convert::FromSpecImpl<Lockbox> for LockBoxResponse {
    open spec fn obeys_from_spec() -> bool {
        true
    }

    open spec fn from_spec(lb: Lockbox) -> LockBoxResponse {
        LockBoxResponse {
            id: lb.id,
            owner: lb.owner,
            claims: lb.claims,
            expiration: lb.expiration,
            total_amount: lb.total_amount,
            reset: lb.reset,
            native_denom: lb.native_denom,
            cw20_addr: lb.cw20_addr,
        }
    }
}

/// A page of lockboxes, in ascending id order.
#[derive(Debug, PartialEq, Eq)]
pub struct LockBoxListResponse {
    pub lockboxes: Vec<LockBoxResponse>,
}

/// The answer to a query.
#[derive(Debug, PartialEq, Eq)]
pub enum QueryResponse {
    LockBox(LockBoxResponse),
    LockBoxList(LockBoxListResponse),
}

} // verus!
