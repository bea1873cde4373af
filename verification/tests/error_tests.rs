use simplefin_data::account::AccountId;
use simplefin_data::connection::ConnectionId;
use simplefin_data::error::{Account, Code, Connection, Error, General};

fn all_codes() -> Vec<(Code, &'static str)> {
    vec![
        (Code::General(None), "gen"),
        (Code::General(Some(General::Api)), "gen.api"),
        (Code::General(Some(General::Auth)), "gen.auth"),
        (Code::Connection(None), "con"),
        (Code::Connection(Some(Connection::Authentication)), "con.auth"),
        (Code::Account(None), "act"),
        (Code::Account(Some(Account::Failed)), "act.failed"),
        (Code::Account(Some(Account::MissingData)), "act.missingdata"),
    ]
}

#[test]
fn code_texts_are_the_documented_ones() {
    for (code, text) in all_codes() {
        assert_eq!(code.as_code_str(), text);
    }
}

#[test]
fn code_text_parses_back() {
    for (code, text) in all_codes() {
        assert_eq!(Code::parse(code.as_code_str()), Some(code));
        assert_eq!(Code::parse(text), Some(code));
    }
}

#[test]
fn unknown_code_text_names_no_code() {
    assert_eq!(Code::parse(""), None);
    assert_eq!(Code::parse("gen."), None);
    assert_eq!(Code::parse("con.api"), None);
    assert_eq!(Code::parse("CON.AUTH"), None);
    assert_eq!(Code::parse("act.missing"), None);
}

#[test]
fn error_holds_documented_fields() {
    let error = Error {
        code: Code::Connection(Some(Connection::Authentication)),
        message: "Authentication failed for My Bank - Jim".to_string(),
        connection_id: Some(ConnectionId::new("CON-21983498-29349823984293842")),
        account_id: None::<AccountId>,
    };
    assert_eq!(error.code.as_code_str(), "con.auth");
    assert_eq!(error.connection_id.as_ref().unwrap().as_str(), "CON-21983498-29349823984293842");
    assert!(error.account_id.is_none());
}
