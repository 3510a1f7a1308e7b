use vstd::prelude::*;
use vstd::string::*;

use crate::structs::{Transaction, TransactionType, Transfer};
use crate::text::{int_text, int_to_text, uuid_text, uuid_to_text};

verus! {

/// One write to the balance store: the SQL text and the values bound to its
/// parameters, in order.
#[derive(Debug, PartialEq, Eq)]
pub enum StoreWrite {
    /// Record a transaction: `$1` its identifier, `$2` its amount (the `f64`
    /// whose bit pattern is `amount_bits`), `$3` its account, `$4` the
    /// identifier of the transfer it belongs to.
    InsertTransaction {
        query: String,
        id: String,
        amount_bits: u64,
        account: String,
        transfer_id: String,
    },
    /// Move an account's balance: `$1` the amount, `$2` the account.
    UpdateBalance { query: String, amount_bits: u64, account: i64 },
}

pub enum StoreWriteView {
    InsertTransaction {
        query: Seq<char>,
        id: Seq<char>,
        amount_bits: u64,
        account: Seq<char>,
        transfer_id: Seq<char>,
    },
    UpdateBalance { query: Seq<char>, amount_bits: u64, account: i64 },
}

impl View for StoreWrite {
    type V = StoreWriteView;

    open spec fn view(&self) -> StoreWriteView {
        match self {
            StoreWrite::InsertTransaction { query, id, amount_bits, account, transfer_id } =>
                StoreWriteView::InsertTransaction {
                query: query@,
                id: id@,
                amount_bits: *amount_bits,
                account: account@,
                transfer_id: transfer_id@,
            },
            StoreWrite::UpdateBalance { query, amount_bits, account } =>
                StoreWriteView::UpdateBalance {
                query: query@,
                amount_bits: *amount_bits,
                account: *account,
            },
        }
    }
}

pub open spec fn insert_query() -> Seq<char> {
    "INSERT INTO transactions(id, amount, account, transfer_id) VALUES ($1, $2, $3, $4);"@
}

pub open spec fn withdraw_query() -> Seq<char> {
    "UPDATE balance SET balance = balance - $1 WHERE account_id = $2;"@
}

pub open spec fn deposit_query() -> Seq<char> {
    "UPDATE balance SET balance = balance + $1 WHERE account_id = $2;"@
}

/// The balance update of a transaction's type: a withdrawal subtracts the
/// amount, a deposit adds it.
pub open spec fn update_query(t: TransactionType) -> Seq<char> {
    match t {
        TransactionType::Withdraw => withdraw_query(),
        TransactionType::Deposit => deposit_query(),
    }
}

/// The write that records `tx` as part of the transfer whose identifier
/// reads `transfer_id`.
pub open spec fn insert_write(tx: Transaction, transfer_id: Seq<char>) -> StoreWriteView {
    StoreWriteView::InsertTransaction {
        query: insert_query(),
        id: uuid_text(tx.transaction_id),
        amount_bits: tx.amount_bits,
        account: int_text(tx.account as int),
        transfer_id: transfer_id,
    }
}

/// The write that moves the balance of `tx`'s account by its amount.
pub open spec fn update_write(tx: Transaction) -> StoreWriteView {
    StoreWriteView::UpdateBalance {
        query: update_query(tx.transaction_type),
        amount_bits: tx.amount_bits,
        account: tx.account,
    }
}

/// The writes of a transfer, in the order they are issued: the deposit and
/// the withdrawal recorded under the transfer's identifier, then the balance
/// updates of the withdrawn and of the credited account.
pub open spec fn transfer_writes_of(t: Transfer) -> Seq<StoreWriteView> {
    seq![
        insert_write(t.deposit_transaction, uuid_text(t.transfer_id)),
        insert_write(t.withdraw_transaction, uuid_text(t.transfer_id)),
        update_write(t.withdraw_transaction),
        update_write(t.deposit_transaction),
    ]
}

/// The write that records a transaction under the transfer identifier `id`.
pub fn insert_transaction_write(transaction: &Transaction, id: String) -> (w: StoreWrite)
    ensures
        w@ == insert_write(*transaction, id@),
{
    StoreWrite::InsertTransaction {
        query: String::from_str(
            "INSERT INTO transactions(id, amount, account, transfer_id) VALUES ($1, $2, $3, $4);",
        ),
        id: uuid_to_text(transaction.transaction_id),
        amount_bits: transaction.amount_bits,
        account: int_to_text(transaction.account),
        transfer_id: id,
    }
}

/// The write that moves the balance of a transaction's account.
pub fn balance_update_write(transaction: &Transaction) -> (w: StoreWrite)
    ensures
        w@ == update_write(*transaction),
{
    let query = match transaction.transaction_type {
        TransactionType::Withdraw => String::from_str(
            "UPDATE balance SET balance = balance - $1 WHERE account_id = $2;",
        ),
        TransactionType::Deposit => String::from_str(
            "UPDATE balance SET balance = balance + $1 WHERE account_id = $2;",
        ),
    };
    StoreWrite::UpdateBalance {
        query,
        amount_bits: transaction.amount_bits,
        account: transaction.account,
    }
}

/// The writes that record a transfer and update both balances.
pub fn transfer_writes(transfer: &Transfer) -> (ws: Vec<StoreWrite>)
    ensures
        ws@.map_values(|w: StoreWrite| w@) == transfer_writes_of(*transfer),
{
    let mut ws: Vec<StoreWrite> = Vec::new();
    ws.push(insert_transaction_write(&transfer.deposit_transaction, uuid_to_text(transfer.transfer_id)));
    ws.push(insert_transaction_write(&transfer.withdraw_transaction, uuid_to_text(transfer.transfer_id)));
    ws.push(balance_update_write(&transfer.withdraw_transaction));
    ws.push(balance_update_write(&transfer.deposit_transaction));
    assert(ws@.map_values(|w: StoreWrite| w@) =~= transfer_writes_of(*transfer));
    ws
}

/// A withdrawal subtracts its amount from its account's balance and a deposit
/// adds it; the update binds the transaction's own amount and account.
pub proof fn lemma_update_direction(tx: Transaction)
    ensures
        update_write(tx) matches StoreWriteView::UpdateBalance { query, amount_bits, account } ==> {
            &&& amount_bits == tx.amount_bits
            &&& account == tx.account
            &&& tx.transaction_type == TransactionType::Withdraw ==> query
                == "UPDATE balance SET balance = balance - $1 WHERE account_id = $2;"@
            &&& tx.transaction_type == TransactionType::Deposit ==> query
                == "UPDATE balance SET balance = balance + $1 WHERE account_id = $2;"@
        },
        update_write(tx) is UpdateBalance,
{
}

/// Recording a transaction inserts its identifier's UUID text, its amount, its
/// account's decimal text and the given transfer identifier, in this order.
pub proof fn lemma_insert_binds_transaction(tx: Transaction, transfer_id: Seq<char>)
    ensures
        insert_write(tx, transfer_id) == (StoreWriteView::InsertTransaction {
            query: "INSERT INTO transactions(id, amount, account, transfer_id) VALUES ($1, $2, $3, $4);"@,
            id: uuid_text(tx.transaction_id),
            amount_bits: tx.amount_bits,
            account: int_text(tx.account as int),
            transfer_id: transfer_id,
        }),
{
}

/// A transfer whose withdrawal is of type `Withdraw` and whose deposit is of
/// type `Deposit` records the deposit, then the withdrawal, both under the
/// transfer's identifier, then takes the withdrawn amount off the source
/// account and adds the deposited amount to the target account.
pub proof fn lemma_transfer_moves_money(t: Transfer)
    requires
        t.withdraw_transaction.transaction_type == TransactionType::Withdraw,
        t.deposit_transaction.transaction_type == TransactionType::Deposit,
    ensures
        transfer_writes_of(t).len() == 4,
        transfer_writes_of(t)[0] == insert_write(t.deposit_transaction, uuid_text(t.transfer_id)),
        transfer_writes_of(t)[1] == insert_write(t.withdraw_transaction, uuid_text(t.transfer_id)),
        transfer_writes_of(t)[2] == (StoreWriteView::UpdateBalance {
            query: "UPDATE balance SET balance = balance - $1 WHERE account_id = $2;"@,
            amount_bits: t.withdraw_transaction.amount_bits,
            account: t.withdraw_transaction.account,
        }),
        transfer_writes_of(t)[3] == (StoreWriteView::UpdateBalance {
            query: "UPDATE balance SET balance = balance + $1 WHERE account_id = $2;"@,
            amount_bits: t.deposit_transaction.amount_bits,
            account: t.deposit_transaction.account,
        }),
{
}

} // verus!
