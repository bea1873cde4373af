use simplefin_data::account::{Account, AccountId, AccountName, Currency};
use simplefin_data::accountset::AccountSet;
use simplefin_data::connection::{
    Connection, ConnectionId, ConnectionName, OrganizationId, OrganizationUrl, SimplefinUrl,
};
use simplefin_data::date::{deserialize_date, serialize_date};
use simplefin_data::transaction::{Transaction, TransactionId};

#[test]
fn default_account_set_is_empty() {
    let set: AccountSet = AccountSet::default();
    assert!(set.errlist.is_empty());
    assert!(set.errors.is_none());
    assert!(set.connections.is_empty());
    assert!(set.accounts.is_empty());
}

#[test]
fn default_account_set_with_extras_is_empty() {
    let set: AccountSet<u32, String> = Default::default();
    assert_eq!(set, AccountSet { errlist: vec![], errors: None, connections: vec![], accounts: vec![] });
}

#[test]
fn account_set_holds_the_documented_example() {
    let connection = Connection {
        connection_id: ConnectionId::new("CON-1122121298398234234"),
        name: ConnectionName::new("My Bank - Jill"),
        organization_id: OrganizationId::new("INST-1298391823-129381928391823"),
        organization_url: Some(OrganizationUrl::new("https://mybank.com").unwrap()),
        simplefin_url: SimplefinUrl::new("https://sfin.mybank.com").unwrap(),
    };
    let transaction: Transaction = Transaction {
        transaction_id: TransactionId::new("12394832938403"),
        posted: deserialize_date(793090572).unwrap(),
        amount: "-33293.43".to_string(),
        description: "Uncle Frank's Bait Shop".to_string(),
        transacted_at: None,
        pending: None,
        extra: None,
    };
    let account: Account = Account {
        account_id: AccountId::new("2930002"),
        name: AccountName::new("Savings"),
        connection_id: ConnectionId::new("CON-1122121298398234234"),
        currency: Currency::new("USD"),
        balance: "100.23".to_string(),
        available_balance: Some("75.23".to_string()),
        balance_date: deserialize_date(978366153).unwrap(),
        transactions: vec![transaction],
        extra: None,
    };
    let set = AccountSet { connections: vec![connection], accounts: vec![account], ..Default::default() };
    assert!(set.errlist.is_empty());
    assert!(set.errors.is_none());
    assert_eq!(set.connections[0].name.as_str(), "My Bank - Jill");
    assert_eq!(
        set.connections[0].organization_url.as_ref().unwrap().as_str(),
        "https://mybank.com/"
    );
    assert_eq!(set.connections[0].simplefin_url.as_str(), "https://sfin.mybank.com/");
    assert_eq!(set.accounts[0].connection_id, set.connections[0].connection_id);
    assert_eq!(serialize_date(&set.accounts[0].balance_date), 978366153);
    assert_eq!(serialize_date(&set.accounts[0].transactions[0].posted), 793090572);
    assert_eq!(set.accounts[0].account_id.as_str(), "2930002");
    assert_eq!(set.accounts[0].currency.as_str(), "USD");
}
