//! Typed failures of the transition engine.

use vstd::prelude::*;
use vstd::string::StringExecFns;

verus! {

/// A failure of the persistence collaborator: the single agreement record
/// was asked for and is not there (the contract was never instantiated).
#[derive(Clone, Copy, Debug, PartialEq, Eq, Structural)]
pub enum StdError {
    NotFound {},
}

impl StdError {
    /// The stable, human-readable description of this failure.
    pub open spec fn spec_message(&self) -> Seq<char> {
        "state not found"@
    }

    /// Renders the failure for a caller.
    pub fn message(&self) -> (r: String)
        ensures
            r@ == self.spec_message(),
    {
        String::from_str("state not found")
    }
}

/// Every failure a transition can surface. `TimeOutError` and
/// `RenterNotFoundError` are recognized categories reserved for roster-lookup
/// and long-running-process features; no current transition raises them.
#[derive(Clone, Copy, Debug, PartialEq, Eq, Structural)]
pub enum ContractError {
    Std(StdError),
    Unauthorized {},
    TimeOutError {},
    RenterNotFoundError {},
}

impl ContractError {
    /// The stable, human-readable description that distinguishes each kind.
    pub open spec fn spec_message(&self) -> Seq<char> {
        match self {
            ContractError::Std(e) => e.spec_message(),
            ContractError::Unauthorized {  } => "Unauthorized"@,
            ContractError::TimeOutError {  } => "this process is currently in progress."@,
            ContractError::RenterNotFoundError {  } => (
            "this wallet address does not exist in this contract."@),
        }
    }

    /// Renders the failure for a caller.
    pub fn message(&self) -> (r: String)
        ensures
            r@ == self.spec_message(),
    {
        match self {
            ContractError::Std(e) => e.message(),
            ContractError::Unauthorized {  } => String::from_str("Unauthorized"),
            ContractError::TimeOutError {  } => String::from_str(
                "this process is currently in progress.",
            ),
            ContractError::RenterNotFoundError {  } => String::from_str(
                "this wallet address does not exist in this contract.",
            ),
        }
    }
}

impl From<StdError> for ContractError {
    /// A storage failure surfaces unchanged, wrapped as `Std`.
    fn from(e: StdError) -> (r: ContractError) {
        ContractError::Std(e)
    }
}

impl vstd::std_specs::convert::FromSpecImpl<StdError> for ContractError {
    open spec fn obeys_from_spec() -> bool {
        true
    }

    open spec fn from_spec(e: StdError) -> ContractError {
        ContractError::Std(e)
    }
}

} // verus!
