use vstd::prelude::*;
use vstd::string::*;

verus! {

/// The message of a transfer refused because the source account holds less
/// than the amount to withdraw.
pub open spec fn insufficient_balance_text() -> Seq<char> {
    "Insufficient balance"@
}

/// The message of a request refused because the account's balance could not
/// be read.
pub open spec fn account_doesnt_exist_text() -> Seq<char> {
    "Account doesn't exist"@
}

pub fn insufficient_balance() -> (s: String)
    ensures
        s@ == insufficient_balance_text(),
{
    String::from_str("Insufficient balance")
}

pub fn account_doesnt_exist() -> (s: String)
    ensures
        s@ == account_doesnt_exist_text(),
{
    String::from_str("Account doesn't exist")
}

} // verus!
