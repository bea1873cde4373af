use simplefin_data::connection::{
    Connection, ConnectionId, ConnectionName, OrganizationId, OrganizationUrl, SimplefinUrl,
    UrlError,
};

#[test]
fn url_is_held_in_its_serialization() {
    let url = OrganizationUrl::new("https://mybank.com").unwrap();
    assert_eq!(url.as_str(), "https://mybank.com/");
    let url = SimplefinUrl::new("https://api.simplefin.org/accounts").unwrap();
    assert_eq!(url.as_str(), "https://api.simplefin.org/accounts");
    let url = SimplefinUrl::new("HTTPS://SFIN.MyBank.com").unwrap();
    assert_eq!(url.as_str(), "https://sfin.mybank.com/");
}

#[test]
fn url_reads_back_from_its_serialization() {
    let url = OrganizationUrl::new("https://mybank.com").unwrap();
    assert_eq!(OrganizationUrl::new(url.as_str()), Ok(url));
}

#[test]
fn text_that_is_no_url_is_refused() {
    assert_eq!(OrganizationUrl::new("mybank.com"), Err(UrlError::NotAnAbsoluteUrl));
    assert_eq!(OrganizationUrl::new(""), Err(UrlError::NotAnAbsoluteUrl));
    assert_eq!(SimplefinUrl::new("not a url"), Err(UrlError::NotAnAbsoluteUrl));
    assert_eq!(SimplefinUrl::new("https://"), Err(UrlError::NotAnAbsoluteUrl));
}

#[test]
fn url_from_parsed_keeps_the_text() {
    let url = SimplefinUrl::from_parsed(Some("https://x.example/".to_string())).unwrap();
    assert_eq!(url.as_str(), "https://x.example/");
    assert_eq!(OrganizationUrl::from_parsed(None), Err(UrlError::NotAnAbsoluteUrl));
}

#[test]
fn connection_holds_documented_fields() {
    let connection = Connection {
        connection_id: ConnectionId::new("conn_bank_123"),
        name: ConnectionName::new("My Bank Account"),
        organization_id: OrganizationId::new("org_mybank"),
        organization_url: Some(OrganizationUrl::new("https://mybank.com").unwrap()),
        simplefin_url: SimplefinUrl::new("https://api.simplefin.org/accounts").unwrap(),
    };
    assert_eq!(connection.connection_id.as_str(), "conn_bank_123");
    assert_eq!(connection.name.as_str(), "My Bank Account");
    assert_eq!(connection.organization_id.as_str(), "org_mybank");
}
