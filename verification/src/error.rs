//! Why the contract refuses a call, and the text it panics with.
use vstd::prelude::*;
use vstd::string::*;
use crate::text::{decimal, push_decimal};

verus! {

/// The contract's own errors.
pub enum ContractError {
    Unauthorized(String),
    InsufficientBalance { available: u128, requested: u128 },
    SerializationFailed(String),
    InvalidAccountId(String),
    AlreadyInitialized,
    InvalidInput(String),
    InsufficientDeposit(String),
}

/// Every reason for which a call is refused. A refused call changes nothing:
/// the contract panics with the reason's message and the chain reverts it.
pub enum Abort {
    Contract(ContractError),
    /// Another compounding run has not finished.
    Processing,
    /// The last compounding run ended less than an hour ago.
    TooSoon,
    /// A callback came from neither the contract nor its owner.
    NotSelfOrOwner,
    /// The call needs exactly one yoctoNEAR attached.
    DepositNotOneYocto,
}

pub enum ContractErrorView {
    Unauthorized(Seq<char>),
    InsufficientBalance { available: u128, requested: u128 },
    SerializationFailed(Seq<char>),
    InvalidAccountId(Seq<char>),
    AlreadyInitialized,
    InvalidInput(Seq<char>),
    InsufficientDeposit(Seq<char>),
}

pub enum AbortView {
    Contract(ContractErrorView),
    Processing,
    TooSoon,
    NotSelfOrOwner,
    DepositNotOneYocto,
}

impl View for ContractError {
    type V = ContractErrorView;

    open spec fn view(&self) -> ContractErrorView {
        match self {
            ContractError::Unauthorized(m) => ContractErrorView::Unauthorized(m@),
            ContractError::InsufficientBalance { available, requested } =>
                ContractErrorView::InsufficientBalance {
                available: *available,
                requested: *requested,
            },
            ContractError::SerializationFailed(m) => ContractErrorView::SerializationFailed(m@),
            ContractError::InvalidAccountId(m) => ContractErrorView::InvalidAccountId(m@),
            ContractError::AlreadyInitialized => ContractErrorView::AlreadyInitialized,
            ContractError::InvalidInput(m) => ContractErrorView::InvalidInput(m@),
            ContractError::InsufficientDeposit(m) => ContractErrorView::InsufficientDeposit(m@),
        }
    }
}

impl View for Abort {
    type V = AbortView;

    open spec fn view(&self) -> AbortView {
        match self {
            Abort::Contract(e) => AbortView::Contract(e@),
            Abort::Processing => AbortView::Processing,
            Abort::TooSoon => AbortView::TooSoon,
            Abort::NotSelfOrOwner => AbortView::NotSelfOrOwner,
            Abort::DepositNotOneYocto => AbortView::DepositNotOneYocto,
        }
    }
}

impl ContractErrorView {
    /// The text of the error: its display form, except that an
    /// insufficient deposit is reported with its bare message.
    pub open spec fn message(self) -> Seq<char> {
        match self {
            ContractErrorView::Unauthorized(m) => "Unauthorized: "@ + m,
            ContractErrorView::InsufficientBalance { available, requested } =>
                "Insufficient balance: available "@ + decimal(available as nat) + ", requested "@
                + decimal(requested as nat),
            ContractErrorView::SerializationFailed(m) => "Serialization failed: "@ + m,
            ContractErrorView::InvalidAccountId(m) => "Invalid account ID: "@ + m,
            ContractErrorView::AlreadyInitialized => "Contract has already been initialized"@,
            ContractErrorView::InvalidInput(m) => "Invalid input: "@ + m,
            ContractErrorView::InsufficientDeposit(m) => m,
        }
    }
}

impl AbortView {
    /// The text the contract panics with.
    pub open spec fn message(self) -> Seq<char> {
        match self {
            AbortView::Contract(e) => e.message(),
            AbortView::Processing => "Contract is processing another transaction"@,
            AbortView::TooSoon => "Compound can only be called once every hour"@,
            AbortView::NotSelfOrOwner => "Callback can only be called by the contract itself or the owner"@,
            AbortView::DepositNotOneYocto => "Requires exactly 1 yoctoNEAR attached deposit"@,
        }
    }
}

impl ContractError {
    /// The text of the error (see `ContractErrorView::message`).
    pub fn message(&self) -> (s: String)
        ensures
            s@ == self@.message(),
    {
        match self {
            ContractError::Unauthorized(m) => String::from_str("Unauthorized: ").concat(m.as_str()),
            ContractError::InsufficientBalance { available, requested } => {
                let mut s = String::from_str("Insufficient balance: available ");
                push_decimal(&mut s, *available);
                s.append(", requested ");
                push_decimal(&mut s, *requested);
                s
            },
            ContractError::SerializationFailed(m) => String::from_str(
                "Serialization failed: ",
            ).concat(m.as_str()),
            ContractError::InvalidAccountId(m) => String::from_str("Invalid account ID: ").concat(
                m.as_str(),
            ),
            ContractError::AlreadyInitialized => String::from_str(
                "Contract has already been initialized",
            ),
            ContractError::InvalidInput(m) => String::from_str("Invalid input: ").concat(m.as_str()),
            ContractError::InsufficientDeposit(m) => m.clone(),
        }
    }
}

impl Abort {
    /// The text the contract panics with when it refuses a call for this reason.
    pub fn message(&self) -> (s: String)
        ensures
            s@ == self@.message(),
    {
        match self {
            Abort::Contract(e) => e.message(),
            Abort::Processing => String::from_str("Contract is processing another transaction"),
            Abort::TooSoon => String::from_str("Compound can only be called once every hour"),
            Abort::NotSelfOrOwner => String::from_str(
                "Callback can only be called by the contract itself or the owner",
            ),
            Abort::DepositNotOneYocto => String::from_str(
                "Requires exactly 1 yoctoNEAR attached deposit",
            ),
        }
    }
}

} // verus!
