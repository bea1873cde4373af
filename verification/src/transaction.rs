//! Transactions of an account.

use vstd::prelude::*;
use vstd::string::StringExecFns;

use crate::date::Timestamp;

verus! {

/// The identifier of a transaction.
#[derive(Debug, Clone, PartialEq, Eq, Hash)]
pub struct TransactionId(String);

impl View for TransactionId {
    type V = Seq<char>;

    closed spec fn view(&self) -> Seq<char> {
        self.0@
    }
}

impl TransactionId {
    /// A transaction identifier with the text `id`.
    pub fn new(id: &str) -> (r: Self)
        ensures
            r@ == id@,
    {
        TransactionId(String::from_str(id))
    }

    /// The text of this identifier.
    pub fn as_str(&self) -> (text: &str)
        ensures
            text@ == self@,
    {
        self.0.as_str()
    }
}

/// A transaction of an account. The amount is held as the decimal text that
/// SimpleFIN sends it as (negative for debits); `TransactionExtraT` carries
/// fields of a server's own.
#[derive(Debug, Clone, PartialEq)]
pub struct Transaction<TransactionExtraT = ()> {
    pub transaction_id: TransactionId,
    pub posted: Timestamp,
    pub amount: String,
    pub description: String,
    pub transacted_at: Option<Timestamp>,
    pub pending: Option<bool>,
    pub extra: Option<TransactionExtraT>,
}

} // verus!
