//! Accounts that a SimpleFIN server reports.

use vstd::prelude::*;
use vstd::string::StringExecFns;

use crate::connection::ConnectionId;
use crate::date::Timestamp;
use crate::transaction::Transaction;

verus! {

/// The identifier of an account.
#[derive(Debug, Clone, PartialEq, Eq, Hash)]
pub struct AccountId(String);

impl View for AccountId {
    type V = Seq<char>;

    closed spec fn view(&self) -> Seq<char> {
        self.0@
    }
}

impl AccountId {
    /// An account identifier with the text `id`.
    pub fn new(id: &str) -> (r: Self)
        ensures
            r@ == id@,
    {
        AccountId(String::from_str(id))
    }

    /// The text of this identifier.
    pub fn as_str(&self) -> (text: &str)
        ensures
            text@ == self@,
    {
        self.0.as_str()
    }
}

/// The display name of an account.
#[derive(Debug, Clone, PartialEq, Eq, Hash)]
pub struct AccountName(String);

impl View for AccountName {
    type V = Seq<char>;

    closed spec fn view(&self) -> Seq<char> {
        self.0@
    }
}

impl AccountName {
    /// An account name with the text `name`.
    pub fn new(name: &str) -> (r: Self)
        ensures
            r@ == name@,
    {
        AccountName(String::from_str(name))
    }

    /// The text of this name.
    pub fn as_str(&self) -> (text: &str)
        ensures
            text@ == self@,
    {
        self.0.as_str()
    }
}

/// The currency of an account: an official code such as `USD`, or the
/// address of a custom currency.
#[derive(Debug, Clone, PartialEq, Eq, Hash)]
pub struct Currency(String);

impl View for Currency {
    type V = Seq<char>;

    closed spec fn view(&self) -> Seq<char> {
        self.0@
    }
}

impl Currency {
    /// A currency with the text `code`.
    pub fn new(code: &str) -> (r: Self)
        ensures
            r@ == code@,
    {
        Currency(String::from_str(code))
    }

    /// The text of this currency.
    pub fn as_str(&self) -> (text: &str)
        ensures
            text@ == self@,
    {
        self.0.as_str()
    }
}

/// An account. Balances are held as the decimal text that SimpleFIN sends
/// them as; `AccountExtraT` and `TransactionExtraT` carry fields of a
/// server's own on the account and on its transactions.
#[derive(Debug, Clone, PartialEq)]
pub struct Account<AccountExtraT = (), TransactionExtraT = ()> {
    pub account_id: AccountId,
    pub name: AccountName,
    pub connection_id: ConnectionId,
    pub currency: Currency,
    pub balance: String,
    pub available_balance: Option<String>,
    pub balance_date: Timestamp,
    pub transactions: Vec<Transaction<TransactionExtraT>>,
    pub extra: Option<AccountExtraT>,
}

} // verus!
