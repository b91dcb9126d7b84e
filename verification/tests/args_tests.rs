use stellar_data::args::{Args, ArgsError};

fn base_args() -> Args {
    Args {
        ledger: None,
        query: "all".to_string(),
        address: None,
        name: None,
        token: None,
        server: false,
        port: 80,
    }
}

#[test]
fn server_mode_needs_no_query_arguments() {
    let mut a = base_args();
    a.server = true;
    a.query = "balance".to_string();
    assert!(a.validate().is_ok());
}

#[test]
fn all_and_transactions_need_a_ledger() {
    let mut a = base_args();
    assert_eq!(a.validate(), Err(ArgsError::MissingLedger));
    a.ledger = Some("100".to_string());
    assert!(a.validate().is_ok());

    a.query = "transactions".to_string();
    assert!(a.validate().is_ok());
    a.ledger = None;
    assert_eq!(a.validate(), Err(ArgsError::MissingLedger));
}

#[test]
fn address_and_contract_need_address_and_ledger() {
    let mut a = base_args();
    a.query = "address".to_string();
    assert_eq!(a.validate(), Err(ArgsError::MissingAddress));
    a.address = Some("GABC".to_string());
    assert_eq!(a.validate(), Err(ArgsError::MissingLedger));
    a.ledger = Some("100".to_string());
    assert!(a.validate().is_ok());

    a.query = "contract".to_string();
    assert!(a.validate().is_ok());
}

#[test]
fn function_needs_name_and_ledger() {
    let mut a = base_args();
    a.query = "function".to_string();
    assert_eq!(a.validate(), Err(ArgsError::MissingName));
    a.name = Some("transfer".to_string());
    assert_eq!(a.validate(), Err(ArgsError::MissingLedger));
    a.ledger = Some("100".to_string());
    assert!(a.validate().is_ok());
}

#[test]
fn balance_needs_address_and_token() {
    let mut a = base_args();
    a.query = "balance".to_string();
    assert_eq!(a.validate(), Err(ArgsError::MissingAddress));
    a.address = Some("GABC".to_string());
    assert_eq!(a.validate(), Err(ArgsError::MissingToken));
    a.token = Some("xlm".to_string());
    assert!(a.validate().is_ok());
}

#[test]
fn unknown_query_kinds_are_rejected() {
    let mut a = base_args();
    a.query = "everything".to_string();
    a.ledger = Some("100".to_string());
    assert_eq!(a.validate(), Err(ArgsError::UnsupportedQuery));
}

#[test]
fn rejections_describe_themselves() {
    assert_eq!(
        ArgsError::MissingAddress.describe("address"),
        "--address is required when using --query address"
    );
    assert_eq!(
        ArgsError::MissingToken.describe("balance"),
        "--token is required when using --query balance"
    );
    assert!(ArgsError::UnsupportedQuery.describe("bogus").starts_with("Unsupported query type: bogus"));
}
