//! The ways in which an operation can be refused.

use vstd::prelude::*;
use vstd::string::StringExecFns;
use crate::account::AccountId;
use crate::decimal::{decimal, to_decimal};
use crate::role::Role;

verus! {

/// A quantity that has to be strictly positive.
#[derive(Clone, Copy, Debug, PartialEq, Eq, Structural)]
pub enum Quantity {
    MinterAllowanceIncrement,
    MinterAllowanceDecrement,
    AllowanceIncrement,
    AllowanceDecrement,
    MintAmount,
    BurnAmount,
}

/// A number that checked arithmetic protects from wrapping.
#[derive(Clone, Copy, Debug, PartialEq, Eq, Structural)]
pub enum Counter {
    MinterAllowance,
    Allowance,
    RequestId,
}

/// A way of spending against an allowance.
#[derive(Clone, Copy, Debug, PartialEq, Eq, Structural)]
pub enum Spending {
    Mint,
    Transfer,
}

/// Something that an operation refers to and that does not exist.
#[derive(Clone, Copy, Debug, PartialEq, Eq, Structural)]
pub enum Missing {
    /// No pending request has the given identifier.
    Request,
    /// The named controller controls no minter.
    Controller,
    /// The caller controls no minter.
    ControlledMinter,
}

/// An operation on a pending request.
#[derive(Clone, Copy, Debug, PartialEq, Eq, Structural)]
pub enum RequestOperation {
    Approve,
    Execute,
    Remove,
}

/// A change to the holders of a governance role.
#[derive(Clone, Copy, Debug, PartialEq, Eq, Structural)]
pub enum RoleChange {
    Grant,
    Revoke,
}

/// A change to an allowance that a holder has approved.
#[derive(Clone, Copy, Debug, PartialEq, Eq, Structural)]
pub enum AllowanceChange {
    Increment,
    Decrement,
}

/// Why a pending request may not be removed.
#[derive(Clone, Copy, Debug, PartialEq, Eq, Structural)]
pub enum RemovalError {
    /// The validity period of the request has not run out.
    RequestStillValid,
}

/// The reason for which an operation was refused. A refused operation has
/// changed nothing.
#[derive(Clone, Debug, PartialEq, Eq)]
pub enum FiatTokenError {
    /// The caller lacks the role that the operation requires.
    Unauthorized { role: Role },
    /// An account that takes part in the operation is on the blocklist.
    Blocklisted { account_id: AccountId },
    /// A quantity that has to be strictly positive is zero.
    InvalidAmount { quantity: Quantity },
    /// The sum would not fit.
    Overflow { counter: Counter },
    /// The difference would fall below zero.
    Underflow { counter: Counter },
    /// The amount is more than what is left of the allowance.
    ExceedsAllowance { spending: Spending },
    /// What the operation refers to does not exist.
    NotFound { missing: Missing },
    /// The caller has approved this request before.
    AlreadyApproved,
    /// The validity period of the request has run out.
    RequestExpired,
    /// The request has fewer approvals than execution needs.
    InsufficientApprovals { current: usize, required: usize },
    /// The request may not be removed.
    RemovalNotAllowed(RemovalError),
    /// The caller controls another minter than the controller that the
    /// request names.
    WrongController { operation: RequestOperation },
    /// The role is not one that can be granted or revoked by request.
    InvalidRoleGrant { change: RoleChange },
    /// The contract is paused.
    Paused,
    /// The contract is not paused.
    NotPaused,
    /// The holder has approved no allowance for the spender yet.
    AllowanceNotApproved { attempted: AllowanceChange },
    /// The amount is more than the balance of the caller.
    ExceedsBalance,
    /// An account cannot be unregistered by force.
    ForcedUnregister,
    /// An account with a positive balance cannot be unregistered.
    PositiveBalance,
    /// No upgrade has been approved.
    NotApprovedForUpgrade,
}

impl Quantity {
    /// What is asked of the quantity, as messages put it.
    pub open spec fn spec_text(&self) -> Seq<char> {
        match self {
            Quantity::MinterAllowanceIncrement => {
                "FiatToken: minter allowance increment must be greater than 0"@
            },
            Quantity::MinterAllowanceDecrement => {
                "FiatToken: minter allowance decrement must be greater than 0"@
            },
            Quantity::AllowanceIncrement => "FiatToken: allowance increment must be greater than 0"@,
            Quantity::AllowanceDecrement => "FiatToken: allowance decrement must be greater than 0"@,
            Quantity::MintAmount => "FiatToken: mint amount not greater than 0"@,
            Quantity::BurnAmount => "FiatToken: burn amount not greater than 0"@,
        }
    }

    /// Returns what is asked of the quantity, as messages put it.
    pub fn text(&self) -> (r: &'static str)
        ensures
            r@ == self.spec_text(),
    {
        match self {
            Quantity::MinterAllowanceIncrement => {
                "FiatToken: minter allowance increment must be greater than 0"
            },
            Quantity::MinterAllowanceDecrement => {
                "FiatToken: minter allowance decrement must be greater than 0"
            },
            Quantity::AllowanceIncrement => "FiatToken: allowance increment must be greater than 0",
            Quantity::AllowanceDecrement => "FiatToken: allowance decrement must be greater than 0",
            Quantity::MintAmount => "FiatToken: mint amount not greater than 0",
            Quantity::BurnAmount => "FiatToken: burn amount not greater than 0",
        }
    }
}

impl Counter {
    /// The name of the number, as messages put it.
    pub open spec fn spec_text(&self) -> Seq<char> {
        match self {
            Counter::MinterAllowance => "minter allowance"@,
            Counter::Allowance => "allowance"@,
            Counter::RequestId => "request identifier"@,
        }
    }

    /// Returns the name of the number, as messages put it.
    pub fn text(&self) -> (r: &'static str)
        ensures
            r@ == self.spec_text(),
    {
        match self {
            Counter::MinterAllowance => "minter allowance",
            Counter::Allowance => "allowance",
            Counter::RequestId => "request identifier",
        }
    }
}

impl Spending {
    /// The refusal of an amount that is more than the allowance, as messages
    /// put it.
    pub open spec fn spec_text(&self) -> Seq<char> {
        match self {
            Spending::Mint => "FiatToken: mint amount exceeds minter allowance"@,
            Spending::Transfer => "FiatToken: transfer amount exceeds allowance"@,
        }
    }

    /// Returns the refusal of an amount that is more than the allowance, as
    /// messages put it.
    pub fn text(&self) -> (r: &'static str)
        ensures
            r@ == self.spec_text(),
    {
        match self {
            Spending::Mint => "FiatToken: mint amount exceeds minter allowance",
            Spending::Transfer => "FiatToken: transfer amount exceeds allowance",
        }
    }
}

impl Missing {
    /// What does not exist, as messages put it.
    pub open spec fn spec_text(&self) -> Seq<char> {
        match self {
            Missing::Request => "FiatToken: request does not exist"@,
            Missing::Controller => "FiatToken: controller does not exist"@,
            Missing::ControlledMinter => "FiatToken: caller does not control a minter"@,
        }
    }

    /// Returns what does not exist, as messages put it.
    pub fn text(&self) -> (r: &'static str)
        ensures
            r@ == self.spec_text(),
    {
        match self {
            Missing::Request => "FiatToken: request does not exist",
            Missing::Controller => "FiatToken: controller does not exist",
            Missing::ControlledMinter => "FiatToken: caller does not control a minter",
        }
    }
}

impl RequestOperation {
    /// The verb of the operation.
    pub open spec fn spec_text(&self) -> Seq<char> {
        match self {
            RequestOperation::Approve => "approve"@,
            RequestOperation::Execute => "execute"@,
            RequestOperation::Remove => "remove"@,
        }
    }

    /// Returns the verb of the operation.
    pub fn text(&self) -> (r: &'static str)
        ensures
            r@ == self.spec_text(),
    {
        match self {
            RequestOperation::Approve => "approve",
            RequestOperation::Execute => "execute",
            RequestOperation::Remove => "remove",
        }
    }
}

impl RoleChange {
    /// The verb of the change.
    pub open spec fn spec_text(&self) -> Seq<char> {
        match self {
            RoleChange::Grant => "grant"@,
            RoleChange::Revoke => "revoke"@,
        }
    }

    /// Returns the verb of the change.
    pub fn text(&self) -> (r: &'static str)
        ensures
            r@ == self.spec_text(),
    {
        match self {
            RoleChange::Grant => "grant",
            RoleChange::Revoke => "revoke",
        }
    }
}

impl AllowanceChange {
    /// The change as an activity.
    pub open spec fn spec_text(&self) -> Seq<char> {
        match self {
            AllowanceChange::Increment => "incrementing"@,
            AllowanceChange::Decrement => "decrementing"@,
        }
    }

    /// Returns the change as an activity.
    pub fn text(&self) -> (r: &'static str)
        ensures
            r@ == self.spec_text(),
    {
        match self {
            AllowanceChange::Increment => "incrementing",
            AllowanceChange::Decrement => "decrementing",
        }
    }
}

impl FiatTokenError {
    /// The message of the error: its kind in words, with the role, the
    /// account or the numbers that it is about.
    pub open spec fn spec_message(&self) -> Seq<char> {
        match self {
            FiatTokenError::Unauthorized { role } => "FiatToken: caller is not a "@
                + role.spec_name(),
            FiatTokenError::Blocklisted { account_id } => "FiatToken: "@ + account_id@
                + " is blocklisted"@,
            FiatTokenError::InvalidAmount { quantity } => quantity.spec_text(),
            FiatTokenError::Overflow { counter } => "FiatToken: attempted to overflow "@
                + counter.spec_text(),
            FiatTokenError::Underflow { counter } => "FiatToken: attempted to underflow "@
                + counter.spec_text(),
            FiatTokenError::ExceedsAllowance { spending } => spending.spec_text(),
            FiatTokenError::NotFound { missing } => missing.spec_text(),
            FiatTokenError::AlreadyApproved => "Already approved by this account"@,
            FiatTokenError::RequestExpired => "Validity period exceeded"@,
            FiatTokenError::InsufficientApprovals { current, required } => {
                "Insufficient approvals on request: required "@ + decimal(*required as nat)
                    + " but only has "@ + decimal(*current as nat)
            },
            FiatTokenError::RemovalNotAllowed(_) => "Removal prohibited before expiration"@,
            FiatTokenError::WrongController { operation } => "FiatToken: can only "@
                + operation.spec_text()
                + " requests to configure the allowance of your own minter"@,
            FiatTokenError::InvalidRoleGrant { change } => "FiatToken: cannot "@
                + change.spec_text() + " the specified role"@,
            FiatTokenError::Paused => "FiatToken: paused"@,
            FiatTokenError::NotPaused => "FiatToken: not paused"@,
            FiatTokenError::AllowanceNotApproved { attempted } => {
                "FiatToken: must approve initial allowance before "@ + attempted.spec_text()
            },
            FiatTokenError::ExceedsBalance => "FiatToken: burn amount exceeds balance"@,
            FiatTokenError::ForcedUnregister => "FiatToken: cannot force storage unregister"@,
            FiatTokenError::PositiveBalance => {
                "FiatToken: cannot unregister an account with a positive balance"@
            },
            FiatTokenError::NotApprovedForUpgrade => "FiatToken: not approved for upgrade"@,
        }
    }

    /// Returns the message of the error, for the caller to read.
    pub fn message(&self) -> (r: String)
        ensures
            r@ == self.spec_message(),
    {
        match self {
            FiatTokenError::Unauthorized { role } => {
                let role_name = role.name();
                String::from_str("FiatToken: caller is not a ").concat(role_name.as_str())
            },
            FiatTokenError::Blocklisted { account_id } => {
                String::from_str("FiatToken: ").concat(account_id.as_str()).concat(
                    " is blocklisted",
                )
            },
            FiatTokenError::InvalidAmount { quantity } => String::from_str(quantity.text()),
            FiatTokenError::Overflow { counter } => {
                String::from_str("FiatToken: attempted to overflow ").concat(counter.text())
            },
            FiatTokenError::Underflow { counter } => {
                String::from_str("FiatToken: attempted to underflow ").concat(counter.text())
            },
            FiatTokenError::ExceedsAllowance { spending } => String::from_str(spending.text()),
            FiatTokenError::NotFound { missing } => String::from_str(missing.text()),
            FiatTokenError::AlreadyApproved => String::from_str("Already approved by this account"),
            FiatTokenError::RequestExpired => String::from_str("Validity period exceeded"),
            FiatTokenError::InsufficientApprovals { current, required } => {
                let required_text = to_decimal(*required);
                let current_text = to_decimal(*current);
                String::from_str("Insufficient approvals on request: required ").concat(
                    required_text.as_str(),
                ).concat(" but only has ").concat(current_text.as_str())
            },
            FiatTokenError::RemovalNotAllowed(_) => {
                String::from_str("Removal prohibited before expiration")
            },
            FiatTokenError::WrongController { operation } => {
                String::from_str("FiatToken: can only ").concat(operation.text()).concat(
                    " requests to configure the allowance of your own minter",
                )
            },
            FiatTokenError::InvalidRoleGrant { change } => {
                String::from_str("FiatToken: cannot ").concat(change.text()).concat(
                    " the specified role",
                )
            },
            FiatTokenError::Paused => String::from_str("FiatToken: paused"),
            FiatTokenError::NotPaused => String::from_str("FiatToken: not paused"),
            FiatTokenError::AllowanceNotApproved { attempted } => {
                String::from_str("FiatToken: must approve initial allowance before ").concat(
                    attempted.text(),
                )
            },
            FiatTokenError::ExceedsBalance => String::from_str("FiatToken: burn amount exceeds balance"),
            FiatTokenError::ForcedUnregister => {
                String::from_str("FiatToken: cannot force storage unregister")
            },
            FiatTokenError::PositiveBalance => {
                String::from_str("FiatToken: cannot unregister an account with a positive balance")
            },
            FiatTokenError::NotApprovedForUpgrade => {
                String::from_str("FiatToken: not approved for upgrade")
            },
        }
    }
}

} // verus!
