use realworld_balance::decision::BalanceCheck;
use realworld_balance::structs::{
    Status, Transaction, TransactionStatus, TransactionType, Transfer, TransferenceStatus,
};
use realworld_balance::transaction_service;
use realworld_balance::transference_service::{
    HandlerAction, HandlerEvent, HandlerState, TransactionService,
};

fn transaction(kind: TransactionType, id: u128, account: i64, amount: f64) -> Transaction {
    Transaction { transaction_type: kind, transaction_id: id, account, amount_bits: amount.to_bits() }
}

fn sample_transfer() -> Transfer {
    Transfer {
        transfer_id: 0x67e5504410b1426f9247bb680e5fe0c8,
        withdraw_transaction: transaction(TransactionType::Withdraw, 11, 7, 25.5),
        deposit_transaction: transaction(TransactionType::Deposit, 12, 9, 25.5),
    }
}

fn failed(message: &str) -> Status {
    Status::Failed(message.to_string())
}

#[test]
fn from_transference_takes_accounts_and_id() {
    let t = sample_transfer();
    let s = TransferenceStatus::from_transference(t, Status::Pending);
    assert_eq!(
        s,
        TransferenceStatus {
            status: Status::Pending,
            source_account: 7,
            target_account: 9,
            id: 0x67e5504410b1426f9247bb680e5fe0c8,
        }
    );
}

#[test]
fn from_transaction_takes_account_and_id() {
    let tx = transaction(TransactionType::Deposit, 42, -3, 1.0);
    let s = TransactionStatus::from_transaction(tx, failed("boom"));
    assert_eq!(s, TransactionStatus { status: failed("boom"), account: -3, id: 42 });
}

#[test]
fn received_transfer_asks_for_source_balance() {
    let service = TransactionService { persist: () };
    let t = sample_transfer();
    let (state, action) = service.handle(HandlerState::Idle, HandlerEvent::Received(t));
    assert_eq!(state, HandlerState::CheckingBalance(t));
    assert_eq!(action, HandlerAction::LookUpBalance { account: 7, amount_bits: 25.5f64.to_bits() });
}

#[test]
fn covered_transfer_is_stored_then_completed() {
    let service = TransactionService { persist: () };
    let t = sample_transfer();
    let (state, action) = service.handle(
        HandlerState::CheckingBalance(t),
        HandlerEvent::BalanceChecked(BalanceCheck::Found { sufficient: true }),
    );
    assert_eq!(state, HandlerState::Storing(t));
    assert_eq!(action, HandlerAction::Store(t));
    let (state, action) = service.handle(state, HandlerEvent::Stored(Ok(())));
    assert_eq!(state, HandlerState::Idle);
    assert_eq!(
        action,
        HandlerAction::Notify(TransferenceStatus::from_transference(t, Status::Completed))
    );
}

#[test]
fn store_error_fails_with_its_message() {
    let service = TransactionService { persist: () };
    let t = sample_transfer();
    let (state, action) = service.handle(
        HandlerState::Storing(t),
        HandlerEvent::Stored(Err("connection refused".to_string())),
    );
    assert_eq!(state, HandlerState::Idle);
    assert_eq!(
        action,
        HandlerAction::Notify(TransferenceStatus {
            status: failed("connection refused"),
            source_account: 7,
            target_account: 9,
            id: t.transfer_id,
        })
    );
}

#[test]
fn uncovered_transfer_fails_with_insufficient_balance() {
    let service = TransactionService { persist: () };
    let t = sample_transfer();
    let (state, action) = service.handle(
        HandlerState::CheckingBalance(t),
        HandlerEvent::BalanceChecked(BalanceCheck::Found { sufficient: false }),
    );
    assert_eq!(state, HandlerState::Idle);
    assert_eq!(
        action,
        HandlerAction::Notify(TransferenceStatus::from_transference(t, failed("Insufficient balance")))
    );
}

#[test]
fn unreadable_balance_fails_with_unknown_account() {
    let service = TransactionService { persist: () };
    let t = sample_transfer();
    let (state, action) = service.handle(
        HandlerState::CheckingBalance(t),
        HandlerEvent::BalanceChecked(BalanceCheck::Unavailable),
    );
    assert_eq!(state, HandlerState::Idle);
    assert_eq!(
        action,
        HandlerAction::Notify(TransferenceStatus::from_transference(t, failed("Account doesn't exist")))
    );
}

#[test]
fn unexpected_events_are_ignored() {
    let service = TransactionService { persist: () };
    let t = sample_transfer();
    let (state, action) = service.handle(HandlerState::Idle, HandlerEvent::Stored(Ok(())));
    assert_eq!((state, action), (HandlerState::Idle, HandlerAction::Wait));
    let (state, action) =
        service.handle(HandlerState::Storing(t), HandlerEvent::Received(sample_transfer()));
    assert_eq!((state, action), (HandlerState::Storing(t), HandlerAction::Wait));
    let (state, action) = service.handle(
        HandlerState::Storing(t),
        HandlerEvent::BalanceChecked(BalanceCheck::Found { sufficient: true }),
    );
    assert_eq!((state, action), (HandlerState::Storing(t), HandlerAction::Wait));
}

#[test]
fn transaction_handler_runs_one_transaction() {
    let service = transaction_service::TransactionService { persist: 0u8 };
    let tx = transaction(TransactionType::Withdraw, 5, 21, 3.25);
    let (state, action) =
        service.handle(transaction_service::HandlerState::Idle, transaction_service::HandlerEvent::Received(tx));
    assert_eq!(state, transaction_service::HandlerState::CheckingBalance(tx));
    assert_eq!(
        action,
        transaction_service::HandlerAction::LookUpBalance { account: 21, amount_bits: 3.25f64.to_bits() }
    );
    let (state, action) = service.handle(
        state,
        transaction_service::HandlerEvent::BalanceChecked(BalanceCheck::Found { sufficient: true }),
    );
    assert_eq!(action, transaction_service::HandlerAction::Store(tx));
    let (state, action) = service.handle(state, transaction_service::HandlerEvent::Stored(Ok(())));
    assert_eq!(state, transaction_service::HandlerState::Idle);
    assert_eq!(
        action,
        transaction_service::HandlerAction::Notify(TransactionStatus {
            status: Status::Completed,
            account: 21,
            id: 5,
        })
    );
}

#[test]
fn transaction_handler_refuses_uncovered_and_unknown() {
    let service = transaction_service::TransactionService { persist: () };
    let tx = transaction(TransactionType::Withdraw, 5, 21, 3.25);
    let (state, action) = service.handle(
        transaction_service::HandlerState::CheckingBalance(tx),
        transaction_service::HandlerEvent::BalanceChecked(BalanceCheck::Found { sufficient: false }),
    );
    assert_eq!(state, transaction_service::HandlerState::Idle);
    assert_eq!(
        action,
        transaction_service::HandlerAction::Notify(TransactionStatus {
            status: failed("Insufficient balance"),
            account: 21,
            id: 5,
        })
    );
    let (_, action) = service.handle(
        transaction_service::HandlerState::CheckingBalance(tx),
        transaction_service::HandlerEvent::BalanceChecked(BalanceCheck::Unavailable),
    );
    assert_eq!(
        action,
        transaction_service::HandlerAction::Notify(TransactionStatus {
            status: failed("Account doesn't exist"),
            account: 21,
            id: 5,
        })
    );
}

#[test]
fn names_are_variant_names() {
    assert_eq!(TransactionType::Withdraw.to_string(), "Withdraw");
    assert_eq!(TransactionType::Deposit.to_string(), "Deposit");
    assert_eq!(Status::Completed.to_string(), "Completed");
    assert_eq!(Status::Pending.to_string(), "Pending");
    assert_eq!(failed("no funds").to_string(), "Failed");
}
