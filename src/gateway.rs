use vstd::prelude::*;

use crate::error::ContractError;
use crate::state::TransferIntent;

verus! {

#[verifier::external_type_specification]
#[verifier::external_body]
pub struct ExStdError(cosmwasm_std::StdError);

/// The JSON body of a token-ledger `Transfer` of `amount` to `recipient`.
pub uninterp spec fn cw20_transfer_body(recipient: Seq<char>, amount: u128) -> Seq<u8>;

/// Relies on cosmwasm_std::to_json_vec applied to cw20's
/// `Cw20ExecuteMsg::Transfer`: the body that cw20's `Cw20Contract::call`
/// sends to a token ledger. Encoding depends on its arguments alone.
#[verifier::external_body]
fn encode_cw20_transfer(recipient: &String, amount: u128) -> (r: Result<Vec<u8>, cosmwasm_std::StdError>)
    ensures
        r matches Ok(body) ==> body@ == cw20_transfer_body(recipient@, amount),
{
    let msg = cw20::Cw20ExecuteMsg::Transfer {
        recipient: recipient.clone(),
        amount: cosmwasm_std::Uint128::new(amount),
    };
    cosmwasm_std::to_json_vec(&msg)
}

/// A transfer in the form the host executes it.
#[derive(Debug, PartialEq, Eq)]
pub enum OutgoingMsg {
    /// A bank send of `amount` of the native currency `denom`.
    BankSend { to_address: String, denom: String, amount: u128 },
    /// A call of the contract at `contract_addr` with the JSON body `msg` and
    /// no coins attached.
    WasmExecute { contract_addr: String, msg: Vec<u8> },
}

/// Turns a transfer into the message the host executes: a bank send, or a
/// `Transfer` call of the token ledger.
pub fn encode_transfer(t: TransferIntent) -> (r: Result<OutgoingMsg, ContractError>)
    ensures
        match t {
            TransferIntent::Bank { to_address, denom, amount } => r == Ok::<_, ContractError>(
                OutgoingMsg::BankSend { to_address, denom, amount },
            ),
            TransferIntent::Cw20 { contract_addr, recipient, amount } => match r {
                Ok(OutgoingMsg::WasmExecute { contract_addr: c, msg }) => c == contract_addr
                    && msg@ == cw20_transfer_body(recipient@, amount),
                Ok(OutgoingMsg::BankSend { .. }) => false,
                Err(e) => e == ContractError::Std {},
            },
        },
{
    match t {
        TransferIntent::Bank { to_address, denom, amount } => Ok(
            OutgoingMsg::BankSend { to_address, denom, amount },
        ),
        TransferIntent::Cw20 { contract_addr, recipient, amount } => match encode_cw20_transfer(
            &recipient,
            amount,
        ) {
            Ok(msg) => Ok(OutgoingMsg::WasmExecute { contract_addr, msg }),
            Err(_) => Err(ContractError::Std {}),
        },
    }
}

} // verus!
