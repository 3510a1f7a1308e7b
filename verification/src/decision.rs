use vstd::prelude::*;

use crate::error_msgs::{
    account_doesnt_exist, account_doesnt_exist_text, insufficient_balance,
    insufficient_balance_text,
};
use crate::structs::{Status, StatusView};

verus! {

/// What reading the balance of the account to debit gave: no balance (the
/// account is unknown or the store failed), or a balance that does or does
/// not cover the amount to withdraw.
#[derive(Clone, Copy, Debug, PartialEq, Eq, Structural)]
pub enum BalanceCheck {
    Unavailable,
    Found { sufficient: bool },
}

/// The status a request is refused with after the balance check, or `None`
/// where the balance covers the amount and the request goes on to the store.
pub open spec fn rejection(check: BalanceCheck) -> Option<StatusView> {
    match check {
        BalanceCheck::Unavailable => Some(StatusView::Failed(account_doesnt_exist_text())),
        BalanceCheck::Found { sufficient } => if sufficient {
            None
        } else {
            Some(StatusView::Failed(insufficient_balance_text()))
        },
    }
}

/// The outcome of a store write, with the error's message as text.
pub open spec fn outcome_view(outcome: Result<(), String>) -> Result<(), Seq<char>> {
    match outcome {
        Ok(()) => Ok(()),
        Err(m) => Err(m@),
    }
}

/// The status of a request that reached the store: completed where the write
/// succeeded, failed with the store's message where it did not.
pub open spec fn stored_status(outcome: Result<(), Seq<char>>) -> StatusView {
    match outcome {
        Ok(()) => StatusView::Completed,
        Err(m) => StatusView::Failed(m),
    }
}

/// A balance that cannot be read refuses the request as an unknown account; a
/// balance short of the amount refuses it as insufficient; a covering balance
/// refuses nothing.
pub proof fn lemma_rejection_reasons()
    ensures
        rejection(BalanceCheck::Unavailable) == Some(StatusView::Failed("Account doesn't exist"@)),
        rejection(BalanceCheck::Found { sufficient: false }) == Some(
            StatusView::Failed("Insufficient balance"@),
        ),
        rejection(BalanceCheck::Found { sufficient: true }) is None,
{
}

/// A write the store accepted completes the request; a write it refused
/// fails the request with exactly the store's message, never as completed or
/// pending.
pub proof fn lemma_stored_status(m: Seq<char>)
    ensures
        stored_status(Ok(())) == StatusView::Completed,
        stored_status(Err(m)) == StatusView::Failed(m),
{
}

pub open spec fn option_status_view(s: Option<Status>) -> Option<StatusView> {
    match s {
        Some(st) => Some(st@),
        None => None,
    }
}

/// The status a request is refused with after its balance check, if any.
pub fn rejection_status(check: BalanceCheck) -> (r: Option<Status>)
    ensures
        option_status_view(r) == rejection(check),
        check == BalanceCheck::Unavailable ==> (r matches Some(Status::Failed(m)) && m@
            == "Account doesn't exist"@),
        check == (BalanceCheck::Found { sufficient: false }) ==> (r matches Some(
            Status::Failed(m),
        ) && m@ == "Insufficient balance"@),
        check == (BalanceCheck::Found { sufficient: true }) ==> r is None,
{
    match check {
        BalanceCheck::Unavailable => Some(Status::Failed(account_doesnt_exist())),
        BalanceCheck::Found { sufficient } => if sufficient {
            None
        } else {
            Some(Status::Failed(insufficient_balance()))
        },
    }
}

/// The status of a request after the store's answer.
pub fn status_after_store(outcome: Result<(), String>) -> (s: Status)
    ensures
        s@ == stored_status(outcome_view(outcome)),
        outcome is Ok ==> s == Status::Completed,
        outcome matches Err(m) ==> s == Status::Failed(m),
{
    match outcome {
        Ok(()) => Status::Completed,
        Err(m) => Status::Failed(m),
    }
}

} // verus!
