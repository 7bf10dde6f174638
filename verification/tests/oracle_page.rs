use fw_pull::oracle::get_oracle_bios;
use fw_pull::ServerIn;

fn req(model: &str) -> ServerIn {
    ServerIn {
        vendor: "Oracle".to_string(),
        model: model.to_string(),
    }
}

const PAGE: &str = "<html><body><table>\
    <tr><td><a id=\"X4-2\">X4-2</a></td><td><strong>Sun System Firmware 9.1.5.a</strong></td></tr>\
    <tr><td><p>Sun System Firmware 9.1.6</p></td></tr>\
    <tr><td><a id=\"X5-2\">X5-2</a></td><td><strong>Sun System Firmware 8.7.0</strong></td></tr>\
    <tr><td><p>Sun System Firmware 8.8.1</p></td></tr>\
    </table></body></html>";

#[test]
fn oracle_extracts_the_matched_row_pair() {
    let rec = get_oracle_bios(&req("X4-2"), PAGE);
    assert_eq!(rec.vendor, "Oracle");
    assert_eq!(rec.model, "X4-2");
    assert_eq!(rec.current, Some("9.1.5.a".to_string()));
    assert_eq!(rec.approved, Some("9.1.6".to_string()));
}

#[test]
fn oracle_finds_a_later_row_too() {
    let rec = get_oracle_bios(&req("X5-2"), PAGE);
    assert_eq!(rec.current, Some("8.7.0".to_string()));
    assert_eq!(rec.approved, Some("8.8.1".to_string()));
}

#[test]
fn oracle_without_matching_anchor_is_not_an_error() {
    let rec = get_oracle_bios(&req("X9-9"), PAGE);
    assert_eq!(rec.vendor, "Oracle");
    assert_eq!(rec.model, "X9-9");
    assert_eq!(rec.current, None);
    assert_eq!(rec.approved, None);
}

#[test]
fn oracle_matched_row_without_version_text_leaves_current_absent() {
    let page = "<html><body><table>\
        <tr><td><a id=\"M1\">M1</a></td><td><strong>unrelated text</strong></td></tr>\
        <tr><td><p>Sun System Firmware 7.0.1</p></td></tr>\
        </table></body></html>";
    let rec = get_oracle_bios(&req("M1"), page);
    assert_eq!(rec.current, None);
    assert_eq!(rec.approved, Some("7.0.1".to_string()));
}

#[test]
fn oracle_matched_last_row_has_no_approved() {
    let page = "<html><body><table>\
        <tr><td><a id=\"M1\">M1</a></td><td><strong>Sun System Firmware 7.0.1</strong></td></tr>\
        </table></body></html>";
    let rec = get_oracle_bios(&req("M1"), page);
    assert_eq!(rec.current, Some("7.0.1".to_string()));
    assert_eq!(rec.approved, None);
}
