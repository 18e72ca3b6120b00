//! The request and response shapes of the boundary surface, and the
//! call context the host environment attaches to every request.

use vstd::prelude::*;
use crate::state::{Addr, Coin};

verus! {

/// The verified context of one request: who calls, and what value transfer
/// arrived attached to the call.
pub struct MessageInfo {
    pub sender: Addr,
    pub funds: Vec<Coin>,
}

/// What the host environment knows about the deployed contract itself.
pub struct ContractInfo {
    pub address: Addr,
}

/// The environment of one invocation.
pub struct Env {
    pub contract: ContractInfo,
}

/// The instantiation request. `renters` is accepted and then discarded:
/// the roster always starts empty, whatever a caller supplies.
pub struct InstantiateMsg {
    pub address: String,
    pub rentcost: Vec<Coin>,
    pub renters: Vec<Addr>,
    pub ownername: String,
}

/// The four mutating requests.
pub enum ExecuteMsg {
    RenterAdd {},
    RenterPay {},
    RenterBoot {},
    ChangeRent { newprice: Vec<Coin> },
}

/// The three read-only requests.
#[derive(Clone, Copy, Debug, PartialEq, Eq, Structural)]
pub enum QueryMsg {
    GetAddress {},
    GetRentCost {},
    GetOwner {},
}

/// Answer to `GetAddress`.
#[derive(Debug, PartialEq)]
pub struct AddressResponse {
    pub address: String,
}

/// Answer to `GetRentCost`.
#[derive(Debug, PartialEq)]
pub struct CostResponse {
    pub rentcost: Vec<Coin>,
}

/// Answer to `GetOwner`.
#[derive(Debug, PartialEq)]
pub struct OwnerResponse {
    pub ownername: String,
}

/// Answer to a query: one single-field response per request kind.
#[derive(Debug, PartialEq)]
pub enum QueryAnswer {
    Address(AddressResponse),
    Cost(CostResponse),
    Owner(OwnerResponse),
}

} // verus!
