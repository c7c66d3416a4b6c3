use std::collections::HashMap;

use trusted_signing_cli::metadata::Metadata;

fn meta(endpoint: &str, account: &str, profile: &str) -> Metadata {
    Metadata {
        endpoint: endpoint.to_string(),
        code_signing_account_name: account.to_string(),
        certificate_profile: profile.to_string(),
    }
}

#[test]
fn plain_record_serialises_exactly() {
    let m = meta("https://eus.codesigning.azure.net", "mnr", "Profile3");
    assert_eq!(
        m.to_json(),
        "{\"Endpoint\":\"https://eus.codesigning.azure.net\",\
         \"CodeSigningAccountName\":\"mnr\",\
         \"CertificateProfileName\":\"Profile3\"}"
    );
}

#[test]
fn output_is_valid_json_with_external_field_names() {
    let m = meta("https://wus2.codesigning.azure.net", "acct", "Prof");
    let v: serde_json::Value = serde_json::from_str(&m.to_json()).unwrap();
    assert_eq!(v["Endpoint"], "https://wus2.codesigning.azure.net");
    assert_eq!(v["CodeSigningAccountName"], "acct");
    assert_eq!(v["CertificateProfileName"], "Prof");
    assert_eq!(v.as_object().unwrap().len(), 3);
}

#[test]
fn quotes_and_backslashes_are_escaped() {
    let m = meta("https://e", "a\"b\\c", "p");
    let out = m.to_json();
    let v: serde_json::Value = serde_json::from_str(&out).unwrap();
    assert_eq!(v["CodeSigningAccountName"], "a\"b\\c");
    assert!(out.contains("a\\\"b\\\\c"));
}

#[test]
fn control_characters_are_escaped() {
    let m = meta("e", "a\nb\tc\u{1}d", "p");
    let out = m.to_json();
    assert!(out.contains("a\\nb\\tc\\u0001d"));
    let v: serde_json::Value = serde_json::from_str(&out).unwrap();
    assert_eq!(v["CodeSigningAccountName"], "a\nb\tc\u{1}d");
}

#[test]
fn metadata_write_overwrites_previous_record() {
    // The workspace metadata file is replaced outright on every run: after
    // writing record A and then record B, only B's fields are recoverable.
    let mut store: HashMap<String, String> = HashMap::new();
    let path = "config/metadata.json".to_string();

    let a = meta("https://a.example", "account-a", "ProfileA");
    store.insert(path.clone(), a.to_json());
    let b = meta("https://b.example", "account-b", "ProfileB");
    store.insert(path.clone(), b.to_json());

    let v: serde_json::Value = serde_json::from_str(&store[&path]).unwrap();
    assert_eq!(v["Endpoint"], "https://b.example");
    assert_eq!(v["CodeSigningAccountName"], "account-b");
    assert_eq!(v["CertificateProfileName"], "ProfileB");
    assert!(!store[&path].contains("account-a"));
}
