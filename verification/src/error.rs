//! Errors of the contract.

use vstd::prelude::*;
use cosmwasm_std::StdError;

verus! {

/// The error type of the chain's standard library, carried through unchanged.
#[verifier::external_type_specification]
#[verifier::external_body]
pub struct ExStdError(StdError);

/// The error that `cosmwasm_std::StdError::not_found` builds from a text:
/// `StdError::NotFound` holding that text.
pub uninterp spec fn std_not_found(kind: Seq<char>) -> StdError;

/// Builds the error that a storage read reports when nothing is stored.
///
/// Calls `cosmwasm_std::StdError::not_found`, which wraps `kind` into
/// `StdError::NotFound`; the error depends on that text alone.
#[verifier::external_body]
pub(crate) fn not_found(kind: &str) -> (e: StdError)
    ensures
        e == std_not_found(kind@),
{
    StdError::not_found(kind)
}

/// Everything that a request to the contract can fail with.
#[derive(Debug)]
#[allow(non_snake_case)]
pub enum ContractError {
    Std(StdError),
    Unauthorized {},
    GenericMsgErr { msg: String },
    InvalidAddress {},
    ExistingUser {},
    NotAnOwner {},
    BuyFromSelf {},
    HasAlreadyRated { addr: String },
    InsufficientFunds { exp: u128, rec: u128 },
    InvalidDenom { exp: String, rec: String },
    NameTooShort { length: u64, min_length: u64 },
    NameTooLong { length: u64, max_length: u64 },
    InvalidCharacter { c: char },
    InvalidRating {},
}

/// The mathematical model of a [`ContractError`]: strings by their characters.
pub enum ContractErrorView {
    Std(StdError),
    Unauthorized,
    GenericMsgErr(Seq<char>),
    InvalidAddress,
    ExistingUser,
    NotAnOwner,
    BuyFromSelf,
    HasAlreadyRated(Seq<char>),
    InsufficientFunds(u128, u128),
    InvalidDenom(Seq<char>, Seq<char>),
    NameTooShort(u64, u64),
    NameTooLong(u64, u64),
    InvalidCharacter(char),
    InvalidRating,
}

impl View for ContractError {
    type V = ContractErrorView;

    open spec fn view(&self) -> ContractErrorView {
        match self {
            ContractError::Std(e) => ContractErrorView::Std(*e),
            ContractError::Unauthorized {  } => ContractErrorView::Unauthorized,
            ContractError::GenericMsgErr { msg } => ContractErrorView::GenericMsgErr(msg@),
            ContractError::InvalidAddress {  } => ContractErrorView::InvalidAddress,
            ContractError::ExistingUser {  } => ContractErrorView::ExistingUser,
            ContractError::NotAnOwner {  } => ContractErrorView::NotAnOwner,
            ContractError::BuyFromSelf {  } => ContractErrorView::BuyFromSelf,
            ContractError::HasAlreadyRated { addr } => ContractErrorView::HasAlreadyRated(addr@),
            ContractError::InsufficientFunds { exp, rec } => ContractErrorView::InsufficientFunds(
                *exp,
                *rec,
            ),
            ContractError::InvalidDenom { exp, rec } => ContractErrorView::InvalidDenom(
                exp@,
                rec@,
            ),
            ContractError::NameTooShort { length, min_length } => ContractErrorView::NameTooShort(
                *length,
                *min_length,
            ),
            ContractError::NameTooLong { length, max_length } => ContractErrorView::NameTooLong(
                *length,
                *max_length,
            ),
            ContractError::InvalidCharacter { c } => ContractErrorView::InvalidCharacter(*c),
            ContractError::InvalidRating {  } => ContractErrorView::InvalidRating,
        }
    }
}

} // verus!
