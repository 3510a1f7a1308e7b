use vstd::prelude::*;

use crate::decision::{
    outcome_view, rejection, rejection_status, status_after_store, stored_status, BalanceCheck,
};
use crate::structs::{
    transaction_status_of, StatusView, Transaction, TransactionStatus,
    TransactionStatusView,
};

verus! {

/// The handler of single transactions: it takes transactions in one at a
/// time, checks that the account covers the amount, has the store record the
/// transaction, and answers each transaction with its status.
///
/// `persist` is the store the handler works with; the decisions are taken by
/// `handle`, which is told what the store and the balance check gave.
pub struct TransactionService<T> {
    pub persist: T,
}

/// Where the handler stands.
#[derive(Clone, Copy, Debug, PartialEq, Eq, Structural)]
pub enum HandlerState {
    /// Waiting for a transaction.
    Idle,
    /// The balance of the transaction's account is being read.
    CheckingBalance(Transaction),
    /// The store is recording the transaction.
    Storing(Transaction),
}

/// What the handler is told.
#[derive(Debug, PartialEq, Eq)]
pub enum HandlerEvent {
    /// A transaction arrived.
    Received(Transaction),
    /// The balance check of the transaction in hand gave this.
    BalanceChecked(BalanceCheck),
    /// The store answered the write of the transaction in hand.
    Stored(Result<(), String>),
}

pub enum HandlerEventView {
    Received(Transaction),
    BalanceChecked(BalanceCheck),
    Stored(Result<(), Seq<char>>),
}

impl View for HandlerEvent {
    type V = HandlerEventView;

    open spec fn view(&self) -> HandlerEventView {
        match self {
            HandlerEvent::Received(t) => HandlerEventView::Received(*t),
            HandlerEvent::BalanceChecked(c) => HandlerEventView::BalanceChecked(*c),
            HandlerEvent::Stored(o) => HandlerEventView::Stored(outcome_view(*o)),
        }
    }
}

/// What the handler asks for next.
#[derive(Clone, Debug, PartialEq, Eq)]
pub enum HandlerAction {
    /// Nothing: wait for the next event.
    Wait,
    /// Read the balance of `account` and compare it with the amount whose
    /// `f64` bit pattern is `amount_bits`.
    LookUpBalance { account: i64, amount_bits: u64 },
    /// Record the transaction and update the balance of its account.
    Store(Transaction),
    /// Send this status.
    Notify(TransactionStatus),
}

pub enum HandlerActionView {
    Wait,
    LookUpBalance { account: i64, amount_bits: u64 },
    Store(Transaction),
    Notify(TransactionStatusView),
}

impl View for HandlerAction {
    type V = HandlerActionView;

    open spec fn view(&self) -> HandlerActionView {
        match self {
            HandlerAction::Wait => HandlerActionView::Wait,
            HandlerAction::LookUpBalance { account, amount_bits } => HandlerActionView::LookUpBalance {
                account: *account,
                amount_bits: *amount_bits,
            },
            HandlerAction::Store(t) => HandlerActionView::Store(*t),
            HandlerAction::Notify(s) => HandlerActionView::Notify(s@),
        }
    }
}

/// The handler's transitions. An event that does not fit the state (a
/// transaction while one is in hand, an answer that was not asked for) leaves
/// the state as it is and asks for nothing.
pub open spec fn next(state: HandlerState, event: HandlerEventView) -> (
    HandlerState,
    HandlerActionView,
) {
    match (state, event) {
        (HandlerState::Idle, HandlerEventView::Received(t)) => (
            HandlerState::CheckingBalance(t),
            HandlerActionView::LookUpBalance {
                account: t.account,
                amount_bits: t.amount_bits,
            },
        ),
        (HandlerState::CheckingBalance(t), HandlerEventView::BalanceChecked(check)) => {
            match rejection(check) {
                None => (HandlerState::Storing(t), HandlerActionView::Store(t)),
                Some(status) => (
                    HandlerState::Idle,
                    HandlerActionView::Notify(transaction_status_of(t, status)),
                ),
            }
        },
        (HandlerState::Storing(t), HandlerEventView::Stored(outcome)) => (
            HandlerState::Idle,
            HandlerActionView::Notify(transaction_status_of(t, stored_status(outcome))),
        ),
        _ => (state, HandlerActionView::Wait),
    }
}

/// The status a transaction is answered with, given what its balance check and,
/// where it got that far, the store gave.
pub open spec fn answer(t: Transaction, check: BalanceCheck, outcome: Result<(), Seq<char>>) -> TransactionStatusView {
    match rejection(check) {
        Some(status) => transaction_status_of(t, status),
        None => transaction_status_of(t, stored_status(outcome)),
    }
}

/// Whether the event is one the handler waits for in this state.
pub open spec fn expected(state: HandlerState, event: HandlerEventView) -> bool {
    match (state, event) {
        (HandlerState::Idle, HandlerEventView::Received(_)) => true,
        (HandlerState::CheckingBalance(_), HandlerEventView::BalanceChecked(_)) => true,
        (HandlerState::Storing(_), HandlerEventView::Stored(_)) => true,
        _ => false,
    }
}

/// Every transaction taken in while idle is answered exactly once: the
/// handler asks for the balance of its account against its amount;
/// a refused check is answered at once, an accepted one goes to the store and
/// is answered with the store's result; either way the handler is idle again.
pub proof fn lemma_each_transaction_answered(
    t: Transaction,
    check: BalanceCheck,
    outcome: Result<(), Seq<char>>,
)
    ensures
        next(HandlerState::Idle, HandlerEventView::Received(t)) == (
            HandlerState::CheckingBalance(t),
            HandlerActionView::LookUpBalance {
                account: t.account,
                amount_bits: t.amount_bits,
            },
        ),
        rejection(check) is Some ==> next(
            HandlerState::CheckingBalance(t),
            HandlerEventView::BalanceChecked(check),
        ) == (HandlerState::Idle, HandlerActionView::Notify(answer(t, check, outcome))),
        rejection(check) is None ==> {
            &&& next(HandlerState::CheckingBalance(t), HandlerEventView::BalanceChecked(check))
                == (HandlerState::Storing(t), HandlerActionView::Store(t))
            &&& next(HandlerState::Storing(t), HandlerEventView::Stored(outcome)) == (
                HandlerState::Idle,
                HandlerActionView::Notify(answer(t, check, outcome)),
            )
        },
{
}

/// A transaction goes to the store only from its balance check, and only
/// where the balance was found and covers the amount.
pub proof fn lemma_store_needs_covering_balance(state: HandlerState, event: HandlerEventView)
    ensures
        next(state, event).1 matches HandlerActionView::Store(t) ==> {
            &&& state == HandlerState::CheckingBalance(t)
            &&& event == HandlerEventView::BalanceChecked(BalanceCheck::Found { sufficient: true })
            &&& next(state, event).0 == HandlerState::Storing(t)
        },
{
}

/// A transaction is reported completed only when the store has accepted it.
pub proof fn lemma_completed_needs_stored(state: HandlerState, event: HandlerEventView)
    ensures
        next(state, event).1 matches HandlerActionView::Notify(st) ==> (st.status
            == StatusView::Completed ==> {
            &&& state matches HandlerState::Storing(t)
            &&& event == HandlerEventView::Stored(Ok(()))
            &&& st == transaction_status_of(t, StatusView::Completed)
        }),
{
    if let HandlerEventView::Stored(outcome) = event {
        if let Ok(u) = outcome {
            assert(u == ());
        }
    }
}

/// Every answer concerns the transaction in hand (its account and identifier),
/// and after it the handler is idle.
pub proof fn lemma_answer_concerns_transaction_in_hand(state: HandlerState, event: HandlerEventView)
    ensures
        next(state, event).1 matches HandlerActionView::Notify(st) ==> {
            &&& next(state, event).0 == HandlerState::Idle
            &&& match state {
                HandlerState::CheckingBalance(t) => reports(st, t, st.status),
                HandlerState::Storing(t) => reports(st, t, st.status),
                HandlerState::Idle => false,
            }
        },
{
}

/// `st` reports status `s` for the transaction `t`: on its accounts and with its
/// identifier.
pub open spec fn reports(st: TransactionStatusView, t: Transaction, s: StatusView) -> bool {
    &&& st.status == s
    &&& st.account == t.account
    &&& st.id == t.transaction_id
}

/// What a transaction comes to, over all inputs: a balance that cannot be read
/// answers it as failed with "Account doesn't exist"; a balance short of the
/// amount answers it as failed with "Insufficient balance"; a covering balance
/// sends it to the store, whose acceptance answers it as completed and whose
/// refusal with message `m` answers it as failed with exactly `m`. Every
/// answer is on the transaction's accounts and identifier, and leaves the handler
/// idle.
pub proof fn lemma_transaction_outcomes(t: Transaction, m: Seq<char>)
    ensures
        next(HandlerState::CheckingBalance(t), HandlerEventView::BalanceChecked(
            BalanceCheck::Unavailable,
        )) matches (HandlerState::Idle, HandlerActionView::Notify(st)) ==> reports(
            st,
            t,
            StatusView::Failed("Account doesn't exist"@),
        ),
        next(HandlerState::CheckingBalance(t), HandlerEventView::BalanceChecked(
            BalanceCheck::Unavailable,
        )) matches (HandlerState::Idle, HandlerActionView::Notify(_)),
        next(HandlerState::CheckingBalance(t), HandlerEventView::BalanceChecked(
            BalanceCheck::Found { sufficient: false },
        )) matches (HandlerState::Idle, HandlerActionView::Notify(st)) ==> reports(
            st,
            t,
            StatusView::Failed("Insufficient balance"@),
        ),
        next(HandlerState::CheckingBalance(t), HandlerEventView::BalanceChecked(
            BalanceCheck::Found { sufficient: false },
        )) matches (HandlerState::Idle, HandlerActionView::Notify(_)),
        next(HandlerState::CheckingBalance(t), HandlerEventView::BalanceChecked(
            BalanceCheck::Found { sufficient: true },
        )) == (HandlerState::Storing(t), HandlerActionView::Store(t)),
        next(HandlerState::Storing(t), HandlerEventView::Stored(Ok(()))) matches (
            HandlerState::Idle,
            HandlerActionView::Notify(st),
        ) ==> reports(st, t, StatusView::Completed),
        next(HandlerState::Storing(t), HandlerEventView::Stored(Ok(()))) matches (
            HandlerState::Idle,
            HandlerActionView::Notify(_),
        ),
        next(HandlerState::Storing(t), HandlerEventView::Stored(Err(m))) matches (
            HandlerState::Idle,
            HandlerActionView::Notify(st),
        ) ==> reports(st, t, StatusView::Failed(m)),
        next(HandlerState::Storing(t), HandlerEventView::Stored(Err(m))) matches (
            HandlerState::Idle,
            HandlerActionView::Notify(_),
        ),
{
}

/// An event the handler does not wait for changes nothing and asks for nothing.
pub proof fn lemma_unexpected_event_ignored(state: HandlerState, event: HandlerEventView)
    ensures
        !expected(state, event) ==> next(state, event) == (state, HandlerActionView::Wait),
        expected(state, event) ==> next(state, event).1 != HandlerActionView::Wait,
{
}

impl<T> TransactionService<T> {
    /// Takes one event and gives the next state and what to do.
    pub fn handle(&self, state: HandlerState, event: HandlerEvent) -> (r: (
        HandlerState,
        HandlerAction,
    ))
        ensures
            (r.0, r.1@) == next(state, event@),
    {
        match (state, event) {
            (HandlerState::Idle, HandlerEvent::Received(t)) => (
                HandlerState::CheckingBalance(t),
                HandlerAction::LookUpBalance {
                    account: t.account,
                    amount_bits: t.amount_bits,
                },
            ),
            (HandlerState::CheckingBalance(t), HandlerEvent::BalanceChecked(check)) => {
                match rejection_status(check) {
                    None => (HandlerState::Storing(t), HandlerAction::Store(t)),
                    Some(status) => (
                        HandlerState::Idle,
                        HandlerAction::Notify(TransactionStatus::from_transaction(t, status)),
                    ),
                }
            },
            (HandlerState::Storing(t), HandlerEvent::Stored(outcome)) => {
                let status = status_after_store(outcome);
                (
                    HandlerState::Idle,
                    HandlerAction::Notify(TransactionStatus::from_transaction(t, status)),
                )
            },
            (state, _) => (state, HandlerAction::Wait),
        }
    }
}

} // verus!
