use azure_typestate::BlobClient;
use azure_typestate::DefaultAzureCredential;
use azure_typestate::ErrorKind;
use azure_typestate::SharedCredential;
use std::sync::Arc;

fn ok<T, E>(r: Result<T, E>) -> T {
    match r {
        Ok(v) => v,
        Err(_) => panic!("expected success"),
    }
}

fn err<T, E>(r: Result<T, E>) -> E {
    match r {
        Ok(_) => panic!("expected failure"),
        Err(e) => e,
    }
}

fn credential() -> SharedCredential {
    SharedCredential::new(Arc::new(DefaultAzureCredential::default()))
}

#[test]
fn endpoint_and_credential_build() {
    let builder = ok(BlobClient::builder().with_endpoint("https://api.contoso.com/endpoint"));
    let client = ok(builder.with_credential(credential()).build());
    assert_eq!(client.pipeline().endpoint(), "https://api.contoso.com/endpoint");
}

#[test]
fn endpoint_and_sas_token_build() {
    let builder = ok(BlobClient::builder().with_endpoint("https://api.contoso.com/endpoint"));
    let client = ok(builder.with_sas_token("sv=2024&sig=SECRET-REDACTED").build());
    assert_eq!(client.pipeline().endpoint(), "https://api.contoso.com/endpoint");
}

#[test]
fn connection_string_alone_builds() {
    let builder = BlobClient::builder()
        .with_connection_string(
            "DefaultEndpointsProtocol=https;AccountName=contoso;AccountKey=***;EndpointSuffix=core.windows.net",
        );
    let client = ok(builder.build());
    assert_eq!(client.pipeline().endpoint(), "https://contoso.blob.core.windows.net/");
}

#[test]
fn endpoint_is_normalized_when_set() {
    let builder = ok(BlobClient::builder().with_endpoint("HTTPS://API.Contoso.com"));
    let client = ok(builder.with_credential(credential()).build());
    assert_eq!(client.pipeline().endpoint(), "https://api.contoso.com/");
}

#[test]
fn invalid_endpoint_rejected_and_builder_reusable() {
    let builder = BlobClient::builder();
    let (builder, error) = err(builder.with_endpoint("not a url"));
    assert_eq!(error.kind(), ErrorKind::InvalidEndpoint);
    assert_eq!(error.input(), "not a url");
    assert_eq!(error.message(), "invalid endpoint: not a url");
    let corrected = ok(builder.with_endpoint("https://api.contoso.com/endpoint"));
    let client = ok(corrected.with_credential(credential()).build());
    assert_eq!(client.pipeline().endpoint(), "https://api.contoso.com/endpoint");
}

#[test]
fn scheme_only_endpoint_rejected() {
    let builder = BlobClient::builder();
    let (_builder, error) = err(builder.with_endpoint("://bad"));
    assert_eq!(error.kind(), ErrorKind::InvalidEndpoint);
    assert_eq!(error.input(), "://bad");
}

#[test]
fn api_version_last_write_wins() {
    let builder = ok(BlobClient::builder().with_endpoint("https://api.contoso.com/endpoint"))
        .with_credential(credential())
        .with_api_version("v1")
        .with_api_version("v2");
    assert_eq!(builder.api_version().as_deref(), Some("v2"));
    let client = ok(builder.build());
    assert_eq!(client.pipeline().endpoint(), "https://api.contoso.com/endpoint");
}

#[test]
fn non_key_value_connection_string_is_eligible_but_fails_at_build() {
    let error = err(BlobClient::builder().with_connection_string("hello").build());
    assert_eq!(error.kind(), ErrorKind::InvalidEndpoint);
    assert_eq!(error.input(), "hello");
}

#[test]
fn connection_string_missing_ingredient_fails_at_build() {
    let text = "AccountName=contoso;AccountKey=***";
    let error = err(BlobClient::builder().with_connection_string(text).build());
    assert_eq!(error.kind(), ErrorKind::InvalidEndpoint);
    assert_eq!(error.input(), text);
}

#[test]
fn connection_string_with_unparsable_endpoint_fails_at_build() {
    let text = "DefaultEndpointsProtocol=ht tp;AccountName=contoso;EndpointSuffix=core.windows.net";
    let error = err(BlobClient::builder().with_connection_string(text).build());
    assert_eq!(error.kind(), ErrorKind::InvalidEndpoint);
    assert_eq!(error.input(), "ht tp://contoso.blob.core.windows.net");
}

#[test]
fn optional_settings_pass_through() {
    let mut diagnostics = azure_typestate::DiagnosticsOptions::default();
    diagnostics.application_id = Some("my-app".to_string());
    diagnostics.logging_content = true;
    let builder = ok(BlobClient::builder().with_endpoint("https://api.contoso.com/endpoint"));
    let client = ok(builder
        .with_credential(credential())
        .with_diagnostics(diagnostics)
        .with_retry(azure_typestate::RetryOptions::fixed())
        .with_api_version("2024-01-01")
        .build());
    assert_eq!(client.pipeline().endpoint(), "https://api.contoso.com/endpoint");
}
