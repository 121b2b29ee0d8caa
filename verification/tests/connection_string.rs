use azure_typestate::ConnectionString;
use azure_typestate::ErrorKind;

#[test]
fn parse_composes_endpoint_from_entries() {
    let parsed = ConnectionString::parse(
        "DefaultEndpointsProtocol=https;AccountName=contoso;AccountKey=SECRET-REDACTED;EndpointSuffix=core.windows.net",
    )
    .unwrap();
    assert_eq!(parsed.endpoint, "https://contoso.blob.core.windows.net");
    assert_eq!(parsed.account_key.as_deref(), Some("SECRET-REDACTED"));
}

#[test]
fn parse_without_account_key() {
    let parsed = ConnectionString::parse(
        "DefaultEndpointsProtocol=https;AccountName=contoso;EndpointSuffix=core.windows.net",
    )
    .unwrap();
    assert_eq!(parsed.endpoint, "https://contoso.blob.core.windows.net");
    assert_eq!(parsed.account_key, None);
}

#[test]
fn parse_keeps_value_after_first_equals_sign() {
    let parsed = ConnectionString::parse(
        "DefaultEndpointsProtocol=https;AccountName=contoso;AccountKey=YWJjZA==;EndpointSuffix=core.windows.net",
    )
    .unwrap();
    assert_eq!(parsed.account_key.as_deref(), Some("YWJjZA=="));
}

#[test]
fn parse_takes_first_entry_for_a_repeated_key() {
    let parsed = ConnectionString::parse(
        "DefaultEndpointsProtocol=https;DefaultEndpointsProtocol=ftp;AccountName=contoso;EndpointSuffix=core.windows.net",
    )
    .unwrap();
    assert_eq!(parsed.endpoint, "https://contoso.blob.core.windows.net");
}

#[test]
fn parse_ignores_empty_entries() {
    let parsed = ConnectionString::parse(
        ";;DefaultEndpointsProtocol=https;;AccountName=contoso;EndpointSuffix=core.windows.net;;",
    )
    .unwrap();
    assert_eq!(parsed.endpoint, "https://contoso.blob.core.windows.net");
}

#[test]
fn parse_rejects_missing_protocol() {
    let error =
        ConnectionString::parse("AccountName=contoso;EndpointSuffix=core.windows.net").unwrap_err();
    assert_eq!(error.kind(), ErrorKind::InvalidEndpoint);
    assert_eq!(error.input(), "AccountName=contoso;EndpointSuffix=core.windows.net");
}

#[test]
fn parse_rejects_missing_account_name() {
    let error = ConnectionString::parse(
        "DefaultEndpointsProtocol=https;EndpointSuffix=core.windows.net",
    )
    .unwrap_err();
    assert_eq!(error.kind(), ErrorKind::InvalidEndpoint);
}

#[test]
fn parse_rejects_missing_suffix() {
    let error =
        ConnectionString::parse("DefaultEndpointsProtocol=https;AccountName=contoso").unwrap_err();
    assert_eq!(error.kind(), ErrorKind::InvalidEndpoint);
}

#[test]
fn key_without_value_is_not_an_entry() {
    let error = ConnectionString::parse(
        "DefaultEndpointsProtocol;AccountName=contoso;EndpointSuffix=core.windows.net",
    )
    .unwrap_err();
    assert_eq!(error.kind(), ErrorKind::InvalidEndpoint);
}
