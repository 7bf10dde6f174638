use fw_pull::error::FwPullError;
use fw_pull::{dell_model, Vendor};

#[test]
fn vendor_parse_is_case_insensitive() {
    assert!(matches!(Vendor::from_str("dell"), Ok(Vendor::Dell)));
    assert!(matches!(Vendor::from_str("DELL"), Ok(Vendor::Dell)));
    assert!(matches!(Vendor::from_str("Dell"), Ok(Vendor::Dell)));
    assert!(matches!(Vendor::from_str("hp"), Ok(Vendor::Hp)));
    assert!(matches!(Vendor::from_str("hP"), Ok(Vendor::Hp)));
    assert!(matches!(Vendor::from_str("oracle"), Ok(Vendor::Oracle)));
    assert!(matches!(Vendor::from_str("ORACLE"), Ok(Vendor::Oracle)));
}

#[test]
fn vendor_parse_rejects_everything_else() {
    assert!(matches!(Vendor::from_str("bogus"), Err(FwPullError::VendorParse)));
    assert!(matches!(Vendor::from_str(""), Err(FwPullError::VendorParse)));
    assert!(matches!(Vendor::from_str("dell "), Err(FwPullError::VendorParse)));
    assert!(matches!(Vendor::from_str("hpe"), Err(FwPullError::VendorParse)));
    assert!(matches!(Vendor::from_str("orac"), Err(FwPullError::VendorParse)));
}

#[test]
fn slug_lowers_and_hyphenates() {
    assert_eq!(dell_model("PowerEdge R630".to_string()), "poweredge-r630");
}

#[test]
fn slug_is_idempotent_on_its_output() {
    let once = dell_model("PowerEdge R630".to_string());
    let twice = dell_model(once.clone());
    assert_eq!(once, twice);
}

#[test]
fn slug_keeps_digits_and_punctuation() {
    assert_eq!(dell_model("ABC-123 x".to_string()), "abc-123-x");
    assert_eq!(dell_model("".to_string()), "");
}

#[test]
fn error_messages_name_what_failed() {
    assert_eq!(FwPullError::VendorParse.message(), "Unknown vendor");
    assert_eq!(
        FwPullError::SoupNotFound("a".to_string()).message(),
        "Could not find a in HTML"
    );
    assert_eq!(
        FwPullError::Session("timed out".to_string()).message(),
        "timed out"
    );
}
