//! A two-party ledger: withdrawing from one account and crediting another,
//! with every failure returned as a value.
//!
//! Balances and amounts are whole numbers of the smallest currency unit. No
//! operation changes an account: each one computes a new balance and hands it
//! back, so a transfer that fails half-way has nothing to undo.
//!
//! Both steps of a transfer are carried out. Crediting adds the amount to the
//! receiving balance and has no failure of its own, so the one way for a
//! transfer to fail is for want of funds in the paying account.

use vstd::prelude::*;

verus! {

/// An account, known by its balance.
#[derive(Debug)]
pub struct Account {
    pub balance: u64,
}

/// Why a transfer did not go through.
#[derive(Debug, Clone, Copy, PartialEq, Eq, Structural)]
pub enum TransferError {
    /// The amount asked for is more than the paying account holds.
    InsufficientBalance,
}

impl TransferError {
    /// The error in words.
    pub fn message(&self) -> (text: String)
        ensures
            text@ == "Insufficient balance"@,
    {
        match self {
            TransferError::InsufficientBalance => "Insufficient balance".to_string(),
        }
    }
}

/// What withdrawing `amount` from a balance gives: the balance that is left,
/// or `InsufficientBalance` when the amount is more than the balance.
pub open spec fn withdrawal_outcome(balance: u64, amount: u64) -> Result<u64, TransferError> {
    if balance < amount {
        Err(TransferError::InsufficientBalance)
    } else {
        Ok((balance - amount) as u64)
    }
}

/// Whether a balance with `amount` added to it is still a balance that an
/// account can hold.
pub open spec fn can_credit(balance: u64, amount: u64) -> bool {
    balance + amount <= u64::MAX
}

/// What transferring `amount` from a paying balance to a receiving one gives:
/// the new receiving balance, or `InsufficientBalance` when the amount is
/// more than the paying balance.
pub open spec fn transfer_outcome(from: u64, to: u64, amount: u64) -> Result<u64, TransferError> {
    if from < amount {
        Err(TransferError::InsufficientBalance)
    } else {
        Ok((to + amount) as u64)
    }
}

impl Account {
    /// Whether `amount` can be credited to this account without its balance
    /// growing past what a balance can hold.
    pub fn can_receive(&self, amount: u64) -> (result: bool)
        ensures
            result == can_credit(self.balance, amount),
    {
        amount <= u64::MAX - self.balance
    }
}

/// Takes `amount` out of `account` and returns the balance that is left. The
/// account is used up by the call.
pub fn withdraw_account(account: Account, amount: u64) -> (result: Result<u64, TransferError>)
    ensures
        result == withdrawal_outcome(account.balance, amount),
{
    if account.balance < amount {
        Err(TransferError::InsufficientBalance)
    } else {
        Ok(account.balance - amount)
    }
}

/// Credits `amount` to `account` and returns its new balance. The account
/// itself is left as it was.
pub fn debit_account(account: &Account, amount: u64) -> (result: Result<u64, TransferError>)
    requires
        can_credit(account.balance, amount),
    ensures
        result == Ok::<u64, TransferError>((account.balance + amount) as u64),
{
    Ok(account.balance + amount)
}

/// Transfers `amount` from one account to another, one explicit match per
/// step: the withdrawal first, the credit only if the withdrawal went
/// through. Returns the new balance of the receiving account.
pub fn transfer_amount_1(from_account: Account, to_account: Account, amount: u64) -> (result:
    Result<u64, TransferError>)
    requires
        from_account.balance >= amount ==> can_credit(to_account.balance, amount),
    ensures
        result == transfer_outcome(from_account.balance, to_account.balance, amount),
{
    let result = withdraw_account(from_account, amount);
    match result {
        Ok(_) => match debit_account(&to_account, amount) {
            Ok(_) => Ok(to_account.balance + amount),
            Err(error) => Err(error),
        },
        Err(error) => Err(error),
    }
}

/// Transfers `amount` from one account to another, each step handing its
/// failure straight back to the caller: the withdrawal first, the credit only
/// if the withdrawal went through. Returns the new balance of the receiving
/// account.
pub fn transfer_amount_2(from_account: Account, to_account: Account, amount: u64) -> (result:
    Result<u64, TransferError>)
    requires
        from_account.balance >= amount ==> can_credit(to_account.balance, amount),
    ensures
        result == transfer_outcome(from_account.balance, to_account.balance, amount),
{
    withdraw_account(from_account, amount)?;
    debit_account(&to_account, amount)?;
    Ok(to_account.balance + amount)
}

/// A transfer fails exactly when its withdrawal fails, and then with the
/// withdrawal's error; otherwise it gives the receiving balance plus the
/// amount.
pub proof fn lemma_transfer_follows_withdrawal(from: u64, to: u64, amount: u64)
    ensures
        transfer_outcome(from, to, amount) == match withdrawal_outcome(from, amount) {
            Ok(_) => Ok::<u64, TransferError>((to + amount) as u64),
            Err(error) => Err(error),
        },
{
}

/// A transfer that goes through moves money and makes none: what the paying
/// account has left and what the receiving account then holds add up to what
/// the two held before.
pub proof fn lemma_transfer_conserves(from: u64, to: u64, amount: u64)
    requires
        from >= amount,
        can_credit(to, amount),
    ensures
        withdrawal_outcome(from, amount) matches Ok(left) && transfer_outcome(
            from,
            to,
            amount,
        ) matches Ok(received) && left + received == from + to,
{
}

} // verus!
