//! Errors that a SimpleFIN server reports in an account set, with their
//! hierarchical codes: general (`gen`), connection (`con`) and account (`act`).

use vstd::prelude::*;
use vstd::string::StringExecFns;

use crate::account::AccountId;
use crate::connection::ConnectionId;
use crate::text::text_equals;

verus! {

/// Sub-codes of general errors.
#[derive(Debug, Clone, Copy, PartialEq, Eq, Structural)]
pub enum General {
    /// `gen.api`
    Api,
    /// `gen.auth`
    Auth,
}

/// Sub-codes of connection errors.
#[derive(Debug, Clone, Copy, PartialEq, Eq, Structural)]
pub enum Connection {
    /// `con.auth`
    Authentication,
}

/// Sub-codes of account errors.
#[derive(Debug, Clone, Copy, PartialEq, Eq, Structural)]
pub enum Account {
    /// `act.failed`
    Failed,
    /// `act.missingdata`
    MissingData,
}

/// The code of an error: its category, and the sub-code within it where one is given.
#[verifier::ext_equal]
#[derive(Debug, Clone, Copy, PartialEq, Eq, Structural)]
pub enum Code {
    General(Option<General>),
    Connection(Option<Connection>),
    Account(Option<Account>),
}

/// The text that a code is written as.
pub open spec fn code_text(code: Code) -> Seq<char> {
    match code {
        Code::General(None) => "gen"@,
        Code::General(Some(General::Api)) => "gen.api"@,
        Code::General(Some(General::Auth)) => "gen.auth"@,
        Code::Connection(None) => "con"@,
        Code::Connection(Some(Connection::Authentication)) => "con.auth"@,
        Code::Account(None) => "act"@,
        Code::Account(Some(Account::Failed)) => "act.failed"@,
        Code::Account(Some(Account::MissingData)) => "act.missingdata"@,
    }
}

/// The code that a text names, if it names one.
pub open spec fn code_parse(text: Seq<char>) -> Option<Code> {
    if text == "gen"@ {
        Some(Code::General(None))
    } else if text == "gen.api"@ {
        Some(Code::General(Some(General::Api)))
    } else if text == "gen.auth"@ {
        Some(Code::General(Some(General::Auth)))
    } else if text == "con"@ {
        Some(Code::Connection(None))
    } else if text == "con.auth"@ {
        Some(Code::Connection(Some(Connection::Authentication)))
    } else if text == "act"@ {
        Some(Code::Account(None))
    } else if text == "act.failed"@ {
        Some(Code::Account(Some(Account::Failed)))
    } else if text == "act.missingdata"@ {
        Some(Code::Account(Some(Account::MissingData)))
    } else {
        None
    }
}

impl Code {
    /// The text that this code is written as, such as `con.auth`.
    pub fn as_code_str(&self) -> (text: &'static str)
        ensures
            text@ == code_text(*self),
    {
        match self {
            Code::General(None) => "gen",
            Code::General(Some(General::Api)) => "gen.api",
            Code::General(Some(General::Auth)) => "gen.auth",
            Code::Connection(None) => "con",
            Code::Connection(Some(Connection::Authentication)) => "con.auth",
            Code::Account(None) => "act",
            Code::Account(Some(Account::Failed)) => "act.failed",
            Code::Account(Some(Account::MissingData)) => "act.missingdata",
        }
    }

    /// The code that `text` names; `None` when it names none.
    pub fn parse(text: &str) -> (code: Option<Code>)
        ensures
            code == code_parse(text@),
    {
        if text_equals(text, "gen") {
            Some(Code::General(None))
        } else if text_equals(text, "gen.api") {
            Some(Code::General(Some(General::Api)))
        } else if text_equals(text, "gen.auth") {
            Some(Code::General(Some(General::Auth)))
        } else if text_equals(text, "con") {
            Some(Code::Connection(None))
        } else if text_equals(text, "con.auth") {
            Some(Code::Connection(Some(Connection::Authentication)))
        } else if text_equals(text, "act") {
            Some(Code::Account(None))
        } else if text_equals(text, "act.failed") {
            Some(Code::Account(Some(Account::Failed)))
        } else if text_equals(text, "act.missingdata") {
            Some(Code::Account(Some(Account::MissingData)))
        } else {
            None
        }
    }
}

/// Every code reads back from the text it is written as.
pub proof fn lemma_code_text_parses_back(code: Code)
    ensures
        code_parse(code_text(code)) == Some(code),
{
    reveal_strlit("gen");
    reveal_strlit("gen.api");
    reveal_strlit("gen.auth");
    reveal_strlit("con");
    reveal_strlit("con.auth");
    reveal_strlit("act");
    reveal_strlit("act.failed");
    reveal_strlit("act.missingdata");
    // The eight texts differ in length or in their first character.
    assert("gen"@.len() == 3 && "con"@.len() == 3 && "act"@.len() == 3);
    assert("gen.api"@.len() == 7 && "gen.auth"@.len() == 8 && "con.auth"@.len() == 8);
    assert("act.failed"@.len() == 10 && "act.missingdata"@.len() == 15);
    assert("gen"@[0] != "con"@[0] && "gen"@[0] != "act"@[0] && "con"@[0] != "act"@[0]);
    assert("gen.auth"@[0] != "con.auth"@[0]);
}

/// A text that names a code is the text that code is written as.
pub proof fn lemma_parsed_code_writes_back(text: Seq<char>)
    requires
        code_parse(text) is Some,
    ensures
        code_text(code_parse(text).unwrap()) == text,
{
}

/// An error that a SimpleFIN server reports.
#[derive(Debug, Clone, PartialEq, Eq)]
pub struct Error {
    pub code: Code,
    pub message: String,
    pub connection_id: Option<ConnectionId>,
    pub account_id: Option<AccountId>,
}

} // verus!
