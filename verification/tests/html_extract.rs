use fw_pull::dell::{dell_approved_from_cell, dell_current_from_source};
use fw_pull::hp::hp_versions_from_source;

#[test]
fn dell_scan_reads_table_cells_in_order() {
    let html = "<html><body><table><tr>\
        <td>foo</td>\
        <td>BIOS Version 13.2.3 info</td>\
        <td>Version 2.1</td>\
        </tr></table></body></html>";
    assert_eq!(dell_current_from_source(html), Some("2.1".to_string()));
}

#[test]
fn dell_scan_without_match_is_absent() {
    let html = "<html><body><table><tr><td>nothing here</td></tr></table></body></html>";
    assert_eq!(dell_current_from_source(html), None);
    assert_eq!(dell_current_from_source("<html><body>Version 9.9</body></html>"), None);
}

#[test]
fn dell_approved_takes_first_anchor_text() {
    let html = "<td><a href=\"x\">2.6.1</a><a>9.9</a></td>";
    assert_eq!(dell_approved_from_cell(html), Some("2.6.1".to_string()));
}

#[test]
fn dell_approved_absent_without_anchor() {
    assert_eq!(dell_approved_from_cell("<td>2.6.1</td>"), None);
}

#[test]
fn hp_bold_scan_takes_first_two_version_tags() {
    let html = "<html><body>\
        <b>Version 3.10 — System ROM</b>\
        <b>irrelevant</b>\
        <b>Version 3.12 — System ROM</b>\
        <b>Version 3.99</b>\
        </body></html>";
    let (current, approved) = hp_versions_from_source(html);
    assert_eq!(current, Some("3.10".to_string()));
    assert_eq!(approved, Some("3.12".to_string()));
}

#[test]
fn hp_bold_scan_ignores_tags_not_starting_with_marker() {
    let html = "<html><body>\
        <b>About Version 1.1</b>\
        <b>Version 2.2</b>\
        </body></html>";
    let (current, approved) = hp_versions_from_source(html);
    assert_eq!(current, Some("2.2".to_string()));
    assert_eq!(approved, None);
}

#[test]
fn hp_bold_scan_without_bold_tags_is_empty() {
    let (current, approved) = hp_versions_from_source("<html><body><p>Version 1.2</p></body></html>");
    assert_eq!(current, None);
    assert_eq!(approved, None);
}
