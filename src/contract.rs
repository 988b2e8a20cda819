use vstd::prelude::*;

use crate::error::ContractError;
use crate::msg::{
    Cw20ReceiveMsg, ExecuteMsg, InstantiateMsg, LockBoxListResponse, LockBoxResponse, QueryMsg,
    QueryResponse, ReceiveMsg,
};
use crate::state::{
    creation_error, find_claim, lemma_sum_update_same_amount, sum_of_claims, BlockInfo, Claim, Coin,
    Lockbox, RawClaim, Scheduled, TransferIntent,
};

verus! {

/// Largest page a listing returns.
pub const MAX_LIMIT: u32 = 30;

/// Page size of a listing that names none.
pub const DEFAULT_LIMIT: u32 = 10;

/// Which operation a response reports.
#[derive(Clone, Copy, Debug, PartialEq, Eq, Structural)]
pub enum Action {
    Instantiate,
    CreateLockbox,
    Reset,
    Deposit,
}

/// An observable attribute of a response.
#[derive(Debug, PartialEq, Eq)]
pub enum Attribute {
    Method(Action),
    Owner(String),
    Id(u64),
    Amount(u128),
}

/// What a successful request hands back: the transfers to execute once it
/// commits, and attributes for observers.
#[derive(Debug, PartialEq, Eq)]
pub struct Response {
    pub messages: Vec<TransferIntent>,
    pub attributes: Vec<Attribute>,
}

impl Response {
    /// The response carries exactly these transfers and attributes.
    pub open spec fn is(self, messages: Seq<TransferIntent>, attributes: Seq<Attribute>) -> bool {
        self.messages@ == messages && self.attributes@ == attributes
    }
}

/// Who sent a request, and the native coins attached to it.
#[derive(Debug, PartialEq, Eq)]
pub struct MessageInfo {
    pub sender: String,
    pub funds: Vec<Coin>,
}

/// The lockbox store: lockbox `n` sits at position `n - 1`, and `seq` is the
/// last id handed out.
#[derive(Debug, PartialEq, Eq)]
pub struct Ledger {
    pub seq: u64,
    pub lockboxes: Vec<Lockbox>,
}

impl Ledger {
    /// Ids run from 1 without gaps, `seq` is the last of them, and every
    /// lockbox is well formed.
    pub open spec fn wf(self) -> bool {
        &&& self.seq == self.lockboxes@.len()
        &&& forall|i: int|
            0 <= i < self.lockboxes@.len() ==> (#[trigger] self.lockboxes@[i]).id == i + 1
                && self.lockboxes@[i].wf()
    }

    /// The store's contents: the last id handed out and the lockboxes.
    pub open spec fn view(self) -> (u64, Seq<Lockbox>) {
        (self.seq, self.lockboxes@)
    }

    /// The lockbox with id `id`, if there is one.
    pub open spec fn lookup(self, id: u64) -> Option<Lockbox> {
        if 1 <= id && id <= self.lockboxes@.len() {
            Some(self.lockboxes@[id - 1])
        } else {
            None
        }
    }

    /// `self` is `prev` with at most the lockbox at position `k` changed.
    pub open spec fn unchanged_but(self, prev: Ledger, k: int) -> bool {
        &&& self.seq == prev.seq
        &&& self.lockboxes@.len() == prev.lockboxes@.len()
        &&& forall|j: int|
            0 <= j < prev.lockboxes@.len() && j != k ==> #[trigger] self.lockboxes@[j]
                == prev.lockboxes@[j]
    }

    /// First position of a listing page.
    pub open spec fn page_start(self, start_after: Option<u64>) -> int {
        match start_after {
            None => 0,
            Some(a) => if a >= self.lockboxes@.len() {
                self.lockboxes@.len() as int
            } else {
                a as int
            },
        }
    }

    /// One past the last position of a listing page.
    pub open spec fn page_end(self, start_after: Option<u64>, limit: Option<u32>) -> int {
        let end = self.page_start(start_after) + page_limit(limit);
        if end > self.lockboxes@.len() {
            self.lockboxes@.len() as int
        } else {
            end
        }
    }

    /// Is the store well formed?
    pub fn is_well_formed(&self) -> (r: bool)
        ensures
            r == self.wf(),
    {
        if self.seq as usize != self.lockboxes.len() || self.seq > usize::MAX as u64 {
            return false;
        }
        let mut i: usize = 0;
        while i < self.lockboxes.len()
            invariant
                0 <= i <= self.lockboxes@.len(),
                forall|j: int|
                    0 <= j < i ==> (#[trigger] self.lockboxes@[j]).id == j + 1
                        && self.lockboxes@[j].wf(),
            decreases self.lockboxes.len() - i,
        {
            let lb = &self.lockboxes[i];
            if lb.id as usize != i + 1 || lb.id > usize::MAX as u64 {
                return false;
            }
            if lb.native_denom.is_some() == lb.cw20_addr.is_some() {
                return false;
            }
            match sum_of_claims(&lb.claims) {
                None => {
                    return false;
                },
                Some(s) => {
                    if lb.total_amount > s {
                        return false;
                    }
                },
            }
            i = i + 1;
        }
        true
    }

    /// Position of lockbox `id`, or `NotFound`.
    fn index_of(&self, id: u64) -> (r: Result<usize, ContractError>)
        ensures
            r matches Ok(k) ==> self.lookup(id) is Some && k + 1 == id && k < self.lockboxes@.len(),
            r is Err ==> self.lookup(id) is None && r == Err::<usize, _>(ContractError::NotFound {}),
    {
        if id == 0 || id > self.lockboxes.len() as u64 {
            return Err(ContractError::NotFound {});
        }
        Ok((id - 1) as usize)
    }
}

/// How many lockboxes a listing page holds at most.
pub open spec fn page_limit(limit: Option<u32>) -> int {
    let l = match limit {
        Some(l) => l,
        None => DEFAULT_LIMIT,
    };
    if l > MAX_LIMIT {
        MAX_LIMIT as int
    } else {
        l as int
    }
}

/// Starts an empty store.
pub fn instantiate(sender: String, _msg: InstantiateMsg) -> (r: (Ledger, Response))
    ensures
        r.0.wf(),
        r.0.seq == 0,
        r.0.lockboxes@.len() == 0,
        r.1.is(seq![], seq![Attribute::Method(Action::Instantiate), Attribute::Owner(sender)]),
{
    let ghost owner = sender;
    let mut attributes: Vec<Attribute> = Vec::new();
    attributes.push(Attribute::Method(Action::Instantiate));
    attributes.push(Attribute::Owner(sender));
    let ledger = Ledger { seq: 0, lockboxes: Vec::new() };
    let response = Response { messages: Vec::new(), attributes };
    assert(response.messages@ =~= seq![]);
    assert(response.attributes@ =~= seq![
        Attribute::Method(Action::Instantiate),
        Attribute::Owner(owner),
    ]);
    (ledger, response)
}


/// What creating a lockbox does to the store `old`, giving `new` and `r`.
pub open spec fn create_effect(
    old: Ledger,
    new: Ledger,
    block: BlockInfo,
    owner: String,
    raw_claims: Seq<RawClaim>,
    expiration: Scheduled,
    native_token: Option<String>,
    cw20_addr: Option<String>,
    r: Result<Response, ContractError>,
) -> bool {
    match creation_error(block, raw_claims, expiration, native_token, cw20_addr) {
        Some(e) => r == Err::<Response, _>(e) && new@ == old@,
        None => if old.seq == u64::MAX {
            r == Err::<Response, _>(ContractError::ArithmeticFault {}) && new@ == old@
        } else {
            let id = (old.seq + 1) as u64;
            &&& r is Ok
            &&& r->Ok_0.is(seq![], seq![Attribute::Method(Action::CreateLockbox), Attribute::Id(id)])
            &&& new.seq == id
            &&& new.lockboxes@.len() == old.lockboxes@.len() + 1
            &&& new.lockboxes@.drop_last() == old.lockboxes@
            &&& new.lockboxes@.last().is_created_from(
                id,
                owner,
                raw_claims,
                expiration,
                native_token,
                cw20_addr,
            )
        },
    }
}

/// Creates a lockbox under the next id.
pub fn execute_create_lockbox(
    ledger: &mut Ledger,
    block: &BlockInfo,
    owner: String,
    raw_claims: Vec<RawClaim>,
    expiration: Scheduled,
    native_token: Option<String>,
    cw20_addr: Option<String>,
) -> (r: Result<Response, ContractError>)
    requires
        old(ledger).wf(),
    ensures
        final(ledger).wf(),
        create_effect(
            *old(ledger),
            *final(ledger),
            *block,
            owner,
            raw_claims@,
            expiration,
            native_token,
            cw20_addr,
            r,
        ),
{
    let ghost (o, n, c) = (owner, native_token, cw20_addr);
    let id = if ledger.seq < u64::MAX {
        ledger.seq + 1
    } else {
        0
    };
    let lb = match Lockbox::create(id, block, owner, &raw_claims, expiration, native_token, cw20_addr) {
        Ok(lb) => lb,
        Err(e) => {
            return Err(e);
        },
    };
    if ledger.seq == u64::MAX {
        return Err(ContractError::ArithmeticFault {});
    }
    ledger.lockboxes.push(lb);
    ledger.seq = id;
    let mut attributes: Vec<Attribute> = Vec::new();
    attributes.push(Attribute::Method(Action::CreateLockbox));
    attributes.push(Attribute::Id(id));
    let response = Response { messages: Vec::new(), attributes };
    assert(response.messages@ =~= seq![]);
    assert(response.attributes@ =~= seq![Attribute::Method(Action::CreateLockbox), Attribute::Id(id)]);
    assert(ledger.lockboxes@.drop_last() =~= old(ledger).lockboxes@);
    assert(ledger.lockboxes@.last().is_created_from(id, o, raw_claims@, expiration, n, c));
    Ok(response)
}

/// What a reset of lockbox `id` does to the store `old`, giving `new` and `r`.
pub open spec fn reset_effect(
    old: Ledger,
    new: Ledger,
    block: BlockInfo,
    id: u64,
    r: Result<Response, ContractError>,
) -> bool {
    match old.lookup(id) {
        None => r == Err::<Response, _>(ContractError::NotFound {}) && new@ == old@,
        Some(lb) => match lb.reset_outcome(block) {
            Err(e) => r == Err::<Response, _>(e) && new@ == old@,
            Ok(payback) => {
                let nb = new.lockboxes@[id - 1];
                &&& r is Ok
                &&& match payback {
                    Some(t) => r->Ok_0.is(seq![t], seq![]),
                    None => r->Ok_0.is(seq![], seq![Attribute::Method(Action::Reset)]),
                }
                &&& new.unchanged_but(old, id - 1)
                &&& nb.same_terms(lb)
                &&& nb.claims@ == lb.claims@
                &&& nb.total_amount == lb.total_amount
                &&& nb.reset
            },
        },
    }
}

/// Revokes lockbox `id` and pays what was deposited back to its owner.
pub fn execute_reset_lockbox(ledger: &mut Ledger, block: &BlockInfo, id: u64) -> (r: Result<
    Response,
    ContractError,
>)
    requires
        old(ledger).wf(),
    ensures
        final(ledger).wf(),
        reset_effect(*old(ledger), *final(ledger), *block, id, r),
{
    let k = match ledger.index_of(id) {
        Ok(k) => k,
        Err(e) => {
            return Err(e);
        },
    };
    let payback = match ledger.lockboxes[k].reset_lockbox(block) {
        Ok(p) => p,
        Err(e) => {
            assert(ledger.lockboxes@ =~= old(ledger).lockboxes@);
            return Err(e);
        },
    };
    assert(ledger.lockboxes@ =~= old(ledger).lockboxes@.update(k as int, ledger.lockboxes@[k as int]));
    let response = match payback {
        Some(t) => {
            let mut messages: Vec<TransferIntent> = Vec::new();
            messages.push(t);
            Response { messages, attributes: Vec::new() }
        },
        None => {
            let mut attributes: Vec<Attribute> = Vec::new();
            attributes.push(Attribute::Method(Action::Reset));
            Response { messages: Vec::new(), attributes }
        },
    };
    assert(response.messages@ =~= match old(ledger).lookup(id).unwrap().reset_outcome(*block) {
        Ok(Some(t)) => seq![t],
        _ => seq![],
    });
    assert(response.attributes@ =~= match old(ledger).lookup(id).unwrap().reset_outcome(*block) {
        Ok(Some(t)) => seq![],
        _ => seq![Attribute::Method(Action::Reset)],
    });
    Ok(response)
}


/// What a native deposit into lockbox `id` does to the store `old`, giving
/// `new` and `r`.
pub open spec fn deposit_native_effect(
    old: Ledger,
    new: Ledger,
    block: BlockInfo,
    funds: Seq<Coin>,
    id: u64,
    r: Result<Response, ContractError>,
) -> bool {
    match old.lookup(id) {
        None => r == Err::<Response, _>(ContractError::NotFound {}) && new@ == old@,
        Some(lb) => match lb.native_deposit_outcome(block, funds) {
            Err(e) => r == Err::<Response, _>(e) && new@ == old@,
            Ok(amount) => {
                let nb = new.lockboxes@[id - 1];
                &&& r is Ok
                &&& r->Ok_0.is(seq![], seq![Attribute::Method(Action::Deposit), Attribute::Amount(amount)])
                &&& new.unchanged_but(old, id - 1)
                &&& nb.same_terms(lb)
                &&& nb.claims@ == lb.claims@
                &&& nb.reset == lb.reset
                &&& nb.total_amount == lb.total_amount - amount
            },
        },
    }
}

/// What a token deposit of `amount` forwarded by `sender` into lockbox `id`
/// does to the store `old`, giving `new` and `r`.
pub open spec fn deposit_effect(
    old: Ledger,
    new: Ledger,
    block: BlockInfo,
    sender: Seq<char>,
    id: u64,
    amount: u128,
    r: Result<Response, ContractError>,
) -> bool {
    match old.lookup(id) {
        None => r == Err::<Response, _>(ContractError::NotFound {}) && new@ == old@,
        Some(lb) => match lb.cw20_deposit_outcome(block, sender, amount) {
            Err(e) => r == Err::<Response, _>(e) && new@ == old@,
            Ok(_) => {
                let nb = new.lockboxes@[id - 1];
                &&& r is Ok
                &&& r->Ok_0.is(seq![], seq![Attribute::Method(Action::Deposit), Attribute::Amount(amount)])
                &&& new.unchanged_but(old, id - 1)
                &&& nb.same_terms(lb)
                &&& nb.claims@ == lb.claims@
                &&& nb.reset == lb.reset
                &&& nb.total_amount == lb.total_amount - amount
            },
        },
    }
}

/// What a claim on lockbox `id` by `sender` does to the store `old`, given
/// the contract's own native `balances`, giving `new` and `r`.
pub open spec fn claim_effect(
    old: Ledger,
    new: Ledger,
    block: BlockInfo,
    sender: Seq<char>,
    balances: Seq<Coin>,
    id: u64,
    r: Result<Response, ContractError>,
) -> bool {
    match old.lookup(id) {
        None => r == Err::<Response, _>(ContractError::NotFound {}) && new@ == old@,
        Some(lb) => match lb.claim_outcome(block, sender, balances) {
            Err(e) => r == Err::<Response, _>(e) && new@ == old@,
            Ok(t) => {
                &&& r is Ok
                &&& r->Ok_0.is(seq![t], seq![])
                &&& new.unchanged_but(old, id - 1)
                &&& new.lockboxes@[id - 1].is_paid_out_from(lb, sender)
            },
        },
    }
}

/// Applies the native coins attached to the request to lockbox `id`.
pub fn execute_deposit_native(
    ledger: &mut Ledger,
    block: &BlockInfo,
    info: &MessageInfo,
    id: u64,
) -> (r: Result<Response, ContractError>)
    requires
        old(ledger).wf(),
    ensures
        final(ledger).wf(),
        deposit_native_effect(*old(ledger), *final(ledger), *block, info.funds@, id, r),
{
    let k = match ledger.index_of(id) {
        Ok(k) => k,
        Err(e) => {
            return Err(e);
        },
    };
    let amount = match ledger.lockboxes[k].deposit_native(block, &info.funds) {
        Ok(a) => a,
        Err(e) => {
            assert(ledger.lockboxes@ =~= old(ledger).lockboxes@);
            return Err(e);
        },
    };
    assert(ledger.lockboxes@ =~= old(ledger).lockboxes@.update(k as int, ledger.lockboxes@[k as int]));
    let mut attributes: Vec<Attribute> = Vec::new();
    attributes.push(Attribute::Method(Action::Deposit));
    attributes.push(Attribute::Amount(amount));
    let response = Response { messages: Vec::new(), attributes };
    assert(response.messages@ =~= seq![]);
    assert(response.attributes@ =~= seq![Attribute::Method(Action::Deposit), Attribute::Amount(amount)]);
    Ok(response)
}

/// Handles a transfer forwarded by a token ledger: its payload says which
/// lockbox the tokens are for.
pub fn execute_receive(
    ledger: &mut Ledger,
    block: &BlockInfo,
    info: &MessageInfo,
    wrapper: Cw20ReceiveMsg,
) -> (r: Result<Response, ContractError>)
    requires
        old(ledger).wf(),
    ensures
        final(ledger).wf(),
        match wrapper.msg {
            ReceiveMsg::Deposit { id } => deposit_effect(
                *old(ledger),
                *final(ledger),
                *block,
                info.sender@,
                id,
                wrapper.amount,
                r,
            ),
        },
{
    match wrapper.msg {
        ReceiveMsg::Deposit { id } => execute_deposit(ledger, block, info, id, wrapper.amount),
    }
}

/// Applies a deposit of `amount` to lockbox `id`, honoured only when the
/// request comes from the lockbox's token ledger.
pub fn execute_deposit(
    ledger: &mut Ledger,
    block: &BlockInfo,
    info: &MessageInfo,
    id: u64,
    amount: u128,
) -> (r: Result<Response, ContractError>)
    requires
        old(ledger).wf(),
    ensures
        final(ledger).wf(),
        deposit_effect(*old(ledger), *final(ledger), *block, info.sender@, id, amount, r),
{
    let k = match ledger.index_of(id) {
        Ok(k) => k,
        Err(e) => {
            return Err(e);
        },
    };
    match ledger.lockboxes[k].deposit(block, &info.sender, amount) {
        Ok(()) => {},
        Err(e) => {
            assert(ledger.lockboxes@ =~= old(ledger).lockboxes@);
            return Err(e);
        },
    }
    assert(ledger.lockboxes@ =~= old(ledger).lockboxes@.update(k as int, ledger.lockboxes@[k as int]));
    let mut attributes: Vec<Attribute> = Vec::new();
    attributes.push(Attribute::Method(Action::Deposit));
    attributes.push(Attribute::Amount(amount));
    let response = Response { messages: Vec::new(), attributes };
    assert(response.messages@ =~= seq![]);
    assert(response.attributes@ =~= seq![Attribute::Method(Action::Deposit), Attribute::Amount(amount)]);
    Ok(response)
}

/// Pays the request's sender their entitlement from lockbox `id`, given the
/// contract's own native `balances`.
pub fn execute_claim(
    ledger: &mut Ledger,
    block: &BlockInfo,
    info: &MessageInfo,
    balances: &Vec<Coin>,
    id: u64,
) -> (r: Result<Response, ContractError>)
    requires
        old(ledger).wf(),
    ensures
        final(ledger).wf(),
        claim_effect(*old(ledger), *final(ledger), *block, info.sender@, balances@, id, r),
{
    let k = match ledger.index_of(id) {
        Ok(k) => k,
        Err(e) => {
            return Err(e);
        },
    };
    let transfer = match ledger.lockboxes[k].claim(block, &info.sender, balances) {
        Ok(t) => t,
        Err(e) => {
            assert(ledger.lockboxes@ =~= old(ledger).lockboxes@);
            return Err(e);
        },
    };
    assert(ledger.lockboxes@ =~= old(ledger).lockboxes@.update(k as int, ledger.lockboxes@[k as int]));
    proof {
        let lb = old(ledger).lockboxes@[k as int];
        let i = find_claim(lb.claims@, info.sender@).unwrap();
        let c = lb.claims@[i];
        lemma_sum_update_same_amount(lb.claims@, i, Claim { addr: c.addr, amount: c.amount, claimed: true });
    }
    let mut messages: Vec<TransferIntent> = Vec::new();
    messages.push(transfer);
    let response = Response { messages, attributes: Vec::new() };
    assert(response.attributes@ =~= seq![]);
    assert(response.messages@ =~= seq![old(ledger).lockboxes@[k as int].claim_outcome(*block, info.sender@, balances@)->Ok_0]);
    Ok(response)
}

/// Reports lockbox `id`.
pub fn query_lockbox(ledger: &Ledger, id: u64) -> (r: Result<LockBoxResponse, ContractError>)
    ensures
        ledger.lookup(id) is None ==> r == Err::<LockBoxResponse, _>(ContractError::NotFound {}),
        ledger.lookup(id) matches Some(lb) ==> r is Ok && r->Ok_0.reports(lb),
{
    let k = match ledger.index_of(id) {
        Ok(k) => k,
        Err(e) => {
            return Err(e);
        },
    };
    Ok(LockBoxResponse::of(&ledger.lockboxes[k]))
}

/// Lists the lockboxes whose ids come strictly after `start_after`, in
/// ascending id order, at most `limit` of them (10 when not given, never more
/// than 30).
pub fn range_lockbox(ledger: &Ledger, start_after: Option<u64>, limit: Option<u32>) -> (r: LockBoxListResponse)
    requires
        ledger.wf(),
    ensures
        r.lockboxes@.len() == ledger.page_end(start_after, limit) - ledger.page_start(start_after),
        forall|j: int|
            0 <= j < r.lockboxes@.len() ==> {
                &&& (#[trigger] r.lockboxes@[j]).reports(
                    ledger.lockboxes@[ledger.page_start(start_after) + j],
                )
                &&& r.lockboxes@[j].id == ledger.page_start(start_after) + j + 1
            },
{
    let wanted = match limit {
        Some(l) => l,
        None => DEFAULT_LIMIT,
    };
    let wanted = if wanted > MAX_LIMIT {
        MAX_LIMIT
    } else {
        wanted
    };
    let n = ledger.lockboxes.len();
    let start: usize = match start_after {
        None => 0,
        Some(a) => if a >= n as u64 {
            n
        } else {
            a as usize
        },
    };
    let end: usize = if wanted as usize > n - start {
        n
    } else {
        start + wanted as usize
    };
    let mut lockboxes: Vec<LockBoxResponse> = Vec::new();
    let mut i: usize = start;
    while i < end
        invariant
            ledger.wf(),
            start == ledger.page_start(start_after),
            end == ledger.page_end(start_after, limit),
            start <= i <= end <= ledger.lockboxes@.len(),
            lockboxes@.len() == i - start,
            forall|j: int|
                0 <= j < lockboxes@.len() ==> {
                    &&& (#[trigger] lockboxes@[j]).reports(ledger.lockboxes@[start + j])
                    &&& lockboxes@[j].id == start + j + 1
                },
        decreases end - i,
    {
        lockboxes.push(LockBoxResponse::of(&ledger.lockboxes[i]));
        i = i + 1;
    }
    LockBoxListResponse { lockboxes }
}

/// Answers a read-only request.
pub fn query(ledger: &Ledger, msg: QueryMsg) -> (r: Result<QueryResponse, ContractError>)
    requires
        ledger.wf(),
    ensures
        match msg {
            QueryMsg::GetLockBox { id } => match ledger.lookup(id) {
                None => r == Err::<QueryResponse, _>(ContractError::NotFound {}),
                Some(lb) => r matches Ok(QueryResponse::LockBox(resp)) && resp.reports(lb),
            },
            QueryMsg::ListLockBoxes { start_after, limit } => r matches Ok(
                QueryResponse::LockBoxList(list),
            ) && list.lockboxes@.len() == ledger.page_end(start_after, limit) - ledger.page_start(
                start_after,
            ) && forall|j: int|
                0 <= j < list.lockboxes@.len() ==> (#[trigger] list.lockboxes@[j]).reports(
                    ledger.lockboxes@[ledger.page_start(start_after) + j],
                ),
        },
{
    match msg {
        QueryMsg::GetLockBox { id } => match query_lockbox(ledger, id) {
            Ok(resp) => Ok(QueryResponse::LockBox(resp)),
            Err(e) => Err(e),
        },
        QueryMsg::ListLockBoxes { start_after, limit } => Ok(
            QueryResponse::LockBoxList(range_lockbox(ledger, start_after, limit)),
        ),
    }
}


/// What a request that changes the store does to `old`, giving `new` and `r`.
pub open spec fn execute_effect(
    old: Ledger,
    new: Ledger,
    block: BlockInfo,
    info: MessageInfo,
    balances: Seq<Coin>,
    msg: ExecuteMsg,
    r: Result<Response, ContractError>,
) -> bool {
    match msg {
        ExecuteMsg::CreateLockbox { owner, raw_claims, expiration, native_token, cw20_addr } =>
            create_effect(
            old,
            new,
            block,
            owner,
            raw_claims@,
            expiration,
            native_token,
            cw20_addr,
            r,
        ),
        ExecuteMsg::Reset { id } => reset_effect(old, new, block, id, r),
        ExecuteMsg::Deposit { id } => deposit_native_effect(
            old,
            new,
            block,
            info.funds@,
            id,
            r,
        ),
        ExecuteMsg::Receive(wrapper) => match wrapper.msg {
            ReceiveMsg::Deposit { id } => deposit_effect(
                old,
                new,
                block,
                info.sender@,
                id,
                wrapper.amount,
                r,
            ),
        },
        ExecuteMsg::Claim { id } => claim_effect(
            old,
            new,
            block,
            info.sender@,
            balances,
            id,
            r,
        ),
    }
}

/// Routes a request that changes the store to its operation. `balances` is
/// the contract's own native balance, which only a claim reads.
pub fn execute(
    ledger: &mut Ledger,
    block: &BlockInfo,
    info: &MessageInfo,
    balances: &Vec<Coin>,
    msg: ExecuteMsg,
) -> (r: Result<Response, ContractError>)
    requires
        old(ledger).wf(),
    ensures
        final(ledger).wf(),
        execute_effect(*old(ledger), *final(ledger), *block, *info, balances@, msg, r),
{
    match msg {
        ExecuteMsg::CreateLockbox { owner, raw_claims, expiration, native_token, cw20_addr } =>
            execute_create_lockbox(
            ledger,
            block,
            owner,
            raw_claims,
            expiration,
            native_token,
            cw20_addr,
        ),
        ExecuteMsg::Reset { id } => execute_reset_lockbox(ledger, block, id),
        ExecuteMsg::Deposit { id } => execute_deposit_native(ledger, block, info, id),
        ExecuteMsg::Receive(wrapper) => execute_receive(ledger, block, info, wrapper),
        ExecuteMsg::Claim { id } => execute_claim(ledger, block, info, balances, id),
    }
}

} // verus!
