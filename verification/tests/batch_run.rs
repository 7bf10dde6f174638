use fw_pull::batch::{collect_records, ItemOutcome};
use fw_pull::dell::DellFlow;
use fw_pull::error::FwPullError;
use fw_pull::oracle::get_oracle_bios;
use fw_pull::{ServerIn, Vendor};

const ORACLE_PAGE: &str = "<html><body><table>\
    <tr><td><a id=\"z\">z</a></td><td><strong>Sun System Firmware 9.1.5.a</strong></td></tr>\
    <tr><td><p>Sun System Firmware 9.1.6</p></td></tr>\
    </table></body></html>";

#[test]
fn batch_keeps_only_successes_and_counts_diagnostics() {
    let reqs = vec![
        ServerIn { vendor: "bogus".to_string(), model: "x".to_string() },
        ServerIn { vendor: "Dell".to_string(), model: "y".to_string() },
        ServerIn { vendor: "Oracle".to_string(), model: "z".to_string() },
    ];

    let mut outcomes = Vec::new();
    for req in &reqs {
        match Vendor::from_str(&req.vendor) {
            Err(e) => outcomes.push(ItemOutcome::Failed(e)),
            Ok(Vendor::Dell) => {
                // the session never finds the first filter control: the
                // surrounding program reports the bounded wait's timeout
                let (_flow, _first) = DellFlow::start(req);
                outcomes.push(ItemOutcome::Failed(FwPullError::Session(
                    "timed out waiting for element".to_string(),
                )));
            },
            Ok(Vendor::Hp) => unreachable!("no HP request in this batch"),
            Ok(Vendor::Oracle) => {
                outcomes.push(ItemOutcome::Extracted(get_oracle_bios(req, ORACLE_PAGE)));
            },
        }
    }

    let (records, diagnostics) = collect_records(&outcomes);
    assert_eq!(records.len(), 1);
    assert_eq!(diagnostics, 2);
    assert_eq!(records[0].vendor, "Oracle");
    assert_eq!(records[0].model, "z");
    assert_eq!(records[0].current, Some("9.1.5.a".to_string()));
    assert_eq!(records[0].approved, Some("9.1.6".to_string()));
}

#[test]
fn batch_of_failures_yields_no_records() {
    let outcomes = vec![
        ItemOutcome::Failed(FwPullError::VendorParse),
        ItemOutcome::Failed(FwPullError::Session("connection refused".to_string())),
    ];
    let (records, diagnostics) = collect_records(&outcomes);
    assert!(records.is_empty());
    assert_eq!(diagnostics, 2);
}

#[test]
fn batch_keeps_input_order() {
    let a = ServerIn { vendor: "Oracle".to_string(), model: "z".to_string() };
    let outcomes = vec![
        ItemOutcome::Extracted(get_oracle_bios(&a, ORACLE_PAGE)),
        ItemOutcome::Failed(FwPullError::VendorParse),
        ItemOutcome::Extracted(get_oracle_bios(&a, "<table></table>")),
    ];
    let (records, diagnostics) = collect_records(&outcomes);
    assert_eq!(records.len(), 2);
    assert_eq!(diagnostics, 1);
    assert_eq!(records[0].current, Some("9.1.5.a".to_string()));
    assert_eq!(records[1].current, None);
}
