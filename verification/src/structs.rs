use vstd::prelude::*;
use vstd::string::*;

verus! {

/// The direction of a transaction on an account.
#[derive(Clone, Copy, Debug, PartialEq, Eq, Structural)]
pub enum TransactionType {
    Withdraw,
    Deposit,
}

/// The name a transaction type is written with.
pub open spec fn transaction_type_name(t: TransactionType) -> Seq<char> {
    match t {
        TransactionType::Withdraw => "Withdraw"@,
        TransactionType::Deposit => "Deposit"@,
    }
}

impl TransactionType {
    /// The variant's name, as the type is displayed.
    pub fn to_string(&self) -> (s: String)
        ensures
            s@ == transaction_type_name(*self),
    {
        match self {
            TransactionType::Withdraw => String::from_str("Withdraw"),
            TransactionType::Deposit => String::from_str("Deposit"),
        }
    }
}

/// A movement of money on one account.
///
/// The identifier is the 128-bit value of a UUID; the amount is kept as the
/// bit pattern of its `f64` value, which the library carries and never reads.
#[derive(Clone, Copy, Debug, PartialEq, Eq, Structural)]
pub struct Transaction {
    pub transaction_type: TransactionType,
    pub transaction_id: u128,
    pub account: i64,
    pub amount_bits: u64,
}

/// A transfer: a withdrawal from one account and a deposit into another.
#[derive(Clone, Copy, Debug, PartialEq, Eq, Structural)]
pub struct Transfer {
    pub transfer_id: u128,
    pub withdraw_transaction: Transaction,
    pub deposit_transaction: Transaction,
}

/// The outcome reported for a request.
#[derive(Clone, Debug, PartialEq, Eq)]
pub enum Status {
    Completed,
    Pending,
    Failed(String),
}

/// What a `Status` stands for, with the failure message as text.
pub enum StatusView {
    Completed,
    Pending,
    Failed(Seq<char>),
}

impl View for Status {
    type V = StatusView;

    open spec fn view(&self) -> StatusView {
        match self {
            Status::Completed => StatusView::Completed,
            Status::Pending => StatusView::Pending,
            Status::Failed(m) => StatusView::Failed(m@),
        }
    }
}

/// The name a status is written with: its variant's name, without the
/// failure message.
pub open spec fn status_name(s: StatusView) -> Seq<char> {
    match s {
        StatusView::Completed => "Completed"@,
        StatusView::Pending => "Pending"@,
        StatusView::Failed(_) => "Failed"@,
    }
}

impl Status {
    /// The variant's name, as the status is displayed.
    pub fn to_string(&self) -> (s: String)
        ensures
            s@ == status_name(self@),
    {
        match self {
            Status::Completed => String::from_str("Completed"),
            Status::Pending => String::from_str("Pending"),
            Status::Failed(_) => String::from_str("Failed"),
        }
    }
}

/// The status of a transfer, reported on both of its accounts.
#[derive(Clone, Debug, PartialEq, Eq)]
pub struct TransferenceStatus {
    pub status: Status,
    pub source_account: i64,
    pub target_account: i64,
    pub id: u128,
}

pub struct TransferenceStatusView {
    pub status: StatusView,
    pub source_account: i64,
    pub target_account: i64,
    pub id: u128,
}

impl View for TransferenceStatus {
    type V = TransferenceStatusView;

    open spec fn view(&self) -> TransferenceStatusView {
        TransferenceStatusView {
            status: self.status@,
            source_account: self.source_account,
            target_account: self.target_account,
            id: self.id,
        }
    }
}

/// The status reported for a transfer: its source is the withdrawn account,
/// its target the credited one, and it carries the transfer's identifier.
pub open spec fn transference_status_of(
    transference: Transfer,
    status: StatusView,
) -> TransferenceStatusView {
    TransferenceStatusView {
        status: status,
        source_account: transference.withdraw_transaction.account,
        target_account: transference.deposit_transaction.account,
        id: transference.transfer_id,
    }
}

/// The status published for a transfer reports the status it was given, the
/// withdrawn account as its source, the credited account as its target, and
/// the transfer's identifier, whatever the accounts' order.
pub proof fn lemma_transference_status_fields(t: Transfer, s: StatusView)
    ensures
        transference_status_of(t, s).status == s,
        transference_status_of(t, s).source_account == t.withdraw_transaction.account,
        transference_status_of(t, s).target_account == t.deposit_transaction.account,
        transference_status_of(t, s).id == t.transfer_id,
{
}

impl TransferenceStatus {
    pub fn from_transference(transference: Transfer, status: Status) -> (r: TransferenceStatus)
        ensures
            r@ == transference_status_of(transference, status@),
            r.status == status,
            r.source_account == transference.withdraw_transaction.account,
            r.target_account == transference.deposit_transaction.account,
            r.id == transference.transfer_id,
    {
        TransferenceStatus {
            status,
            source_account: transference.withdraw_transaction.account,
            target_account: transference.deposit_transaction.account,
            id: transference.transfer_id,
        }
    }
}

/// The status of a single transaction, reported on its account.
#[derive(Clone, Debug, PartialEq, Eq)]
pub struct TransactionStatus {
    pub status: Status,
    pub account: i64,
    pub id: u128,
}

pub struct TransactionStatusView {
    pub status: StatusView,
    pub account: i64,
    pub id: u128,
}

impl View for TransactionStatus {
    type V = TransactionStatusView;

    open spec fn view(&self) -> TransactionStatusView {
        TransactionStatusView { status: self.status@, account: self.account, id: self.id }
    }
}

/// The status reported for a transaction: its account and its identifier.
pub open spec fn transaction_status_of(
    transaction: Transaction,
    status: StatusView,
) -> TransactionStatusView {
    TransactionStatusView {
        status: status,
        account: transaction.account,
        id: transaction.transaction_id,
    }
}

/// The status published for a transaction reports the status it was given,
/// the transaction's account and its whole 128-bit identifier.
pub proof fn lemma_transaction_status_fields(tx: Transaction, s: StatusView)
    ensures
        transaction_status_of(tx, s).status == s,
        transaction_status_of(tx, s).account == tx.account,
        transaction_status_of(tx, s).id == tx.transaction_id,
{
}

impl TransactionStatus {
    pub fn from_transaction(transaction: Transaction, status: Status) -> (r: TransactionStatus)
        ensures
            r@ == transaction_status_of(transaction, status@),
            r.status == status,
            r.account == transaction.account,
            r.id == transaction.transaction_id,
    {
        TransactionStatus { status, account: transaction.account, id: transaction.transaction_id }
    }
}

} // verus!
