//! The account set: a complete SimpleFIN v2 response with accounts,
//! connections and errors.

use vstd::prelude::*;

use crate::account::Account;
use crate::connection::Connection;
use crate::error::Error;

verus! {

/// A complete SimpleFIN API response: the errors the server reports, the
/// connections it holds, and the accounts with their transactions.
/// `errors` is the older, single-text form of `errlist`.
#[derive(Debug, PartialEq)]
pub struct AccountSet<AccountExtraT = (), TransactionExtraT = ()> {
    pub errlist: Vec<Error>,
    pub errors: Option<String>,
    pub connections: Vec<Connection>,
    pub accounts: Vec<Account<AccountExtraT, TransactionExtraT>>,
}

impl<AccountExtraT, TransactionExtraT> Default for AccountSet<AccountExtraT, TransactionExtraT> {
    /// An account set with no errors, no connections and no accounts.
    fn default() -> (set: Self)
        ensures
            set.errlist@ == Seq::<Error>::empty(),
            set.errors is None,
            set.connections@ == Seq::<Connection>::empty(),
            set.accounts@ == Seq::<Account<AccountExtraT, TransactionExtraT>>::empty(),
    {
        AccountSet { errlist: Vec::new(), errors: None, connections: Vec::new(), accounts: Vec::new() }
    }
}

} // verus!
