use realworld_balance::store_writes::{
    balance_update_write, insert_transaction_write, transfer_writes, StoreWrite,
};
use realworld_balance::structs::{Transaction, TransactionType, Transfer};

const INSERT: &str =
    "INSERT INTO transactions(id, amount, account, transfer_id) VALUES ($1, $2, $3, $4);";
const SUBTRACT: &str = "UPDATE balance SET balance = balance - $1 WHERE account_id = $2;";
const ADD: &str = "UPDATE balance SET balance = balance + $1 WHERE account_id = $2;";

#[test]
fn insert_write_formats_uuid_and_account() {
    let tx = Transaction {
        transaction_type: TransactionType::Withdraw,
        transaction_id: 0x67e5504410b1426f9247bb680e5fe0c8,
        account: -9223372036854775808,
        amount_bits: 12.75f64.to_bits(),
    };
    let w = insert_transaction_write(&tx, "transfer-1".to_string());
    assert_eq!(
        w,
        StoreWrite::InsertTransaction {
            query: INSERT.to_string(),
            id: "67e55044-10b1-426f-9247-bb680e5fe0c8".to_string(),
            amount_bits: 12.75f64.to_bits(),
            account: "-9223372036854775808".to_string(),
            transfer_id: "transfer-1".to_string(),
        }
    );
}

#[test]
fn insert_write_small_values() {
    let tx = Transaction {
        transaction_type: TransactionType::Deposit,
        transaction_id: 1,
        account: 0,
        amount_bits: 0,
    };
    match insert_transaction_write(&tx, String::new()) {
        StoreWrite::InsertTransaction { id, account, .. } => {
            assert_eq!(id, "00000000-0000-0000-0000-000000000001");
            assert_eq!(account, "0");
        }
        other => panic!("unexpected write {:?}", other),
    }
    let tx = Transaction { account: 9223372036854775807, ..tx };
    match insert_transaction_write(&tx, String::new()) {
        StoreWrite::InsertTransaction { account, .. } => assert_eq!(account, "9223372036854775807"),
        other => panic!("unexpected write {:?}", other),
    }
}

#[test]
fn balance_update_direction_follows_type() {
    let mut tx = Transaction {
        transaction_type: TransactionType::Withdraw,
        transaction_id: 3,
        account: 44,
        amount_bits: 2.5f64.to_bits(),
    };
    assert_eq!(
        balance_update_write(&tx),
        StoreWrite::UpdateBalance { query: SUBTRACT.to_string(), amount_bits: 2.5f64.to_bits(), account: 44 }
    );
    tx.transaction_type = TransactionType::Deposit;
    assert_eq!(
        balance_update_write(&tx),
        StoreWrite::UpdateBalance { query: ADD.to_string(), amount_bits: 2.5f64.to_bits(), account: 44 }
    );
}

#[test]
fn transfer_moves_money_from_source_to_target() {
    let t = Transfer {
        transfer_id: 0xffffffffffffffffffffffffffffffff,
        withdraw_transaction: Transaction {
            transaction_type: TransactionType::Withdraw,
            transaction_id: 0xa1a2a3a4b1b2c1c2d1d2d3d4d5d6d7d8,
            account: 1,
            amount_bits: 10.0f64.to_bits(),
        },
        deposit_transaction: Transaction {
            transaction_type: TransactionType::Deposit,
            transaction_id: 0x10,
            account: 2,
            amount_bits: 10.0f64.to_bits(),
        },
    };
    let ws = transfer_writes(&t);
    let tid = "ffffffff-ffff-ffff-ffff-ffffffffffff".to_string();
    assert_eq!(
        ws,
        vec![
            StoreWrite::InsertTransaction {
                query: INSERT.to_string(),
                id: "00000000-0000-0000-0000-000000000010".to_string(),
                amount_bits: 10.0f64.to_bits(),
                account: "2".to_string(),
                transfer_id: tid.clone(),
            },
            StoreWrite::InsertTransaction {
                query: INSERT.to_string(),
                id: "a1a2a3a4-b1b2-c1c2-d1d2-d3d4d5d6d7d8".to_string(),
                amount_bits: 10.0f64.to_bits(),
                account: "1".to_string(),
                transfer_id: tid,
            },
            StoreWrite::UpdateBalance { query: SUBTRACT.to_string(), amount_bits: 10.0f64.to_bits(), account: 1 },
            StoreWrite::UpdateBalance { query: ADD.to_string(), amount_bits: 10.0f64.to_bits(), account: 2 },
        ]
    );
}
