use fw_pull::dell::DellFlow;
use fw_pull::session::{Locator, SessionAction, SessionEvent};
use fw_pull::ServerIn;

fn xpath_of(a: &SessionAction) -> &str {
    match a {
        SessionAction::WaitClick(Locator::XPath(s)) => s,
        _ => panic!("expected a click on an XPath locator"),
    }
}

fn css_of(a: &SessionAction) -> &str {
    match a {
        SessionAction::WaitClick(Locator::Css(s)) => s,
        _ => panic!("expected a click on a CSS locator"),
    }
}

#[test]
fn dell_workflow_walks_its_fixed_sequence() {
    let req = ServerIn {
        vendor: "Dell".to_string(),
        model: "PowerEdge R630".to_string(),
    };
    let (mut flow, first) = DellFlow::start(&req);
    match &first {
        SessionAction::Navigate(u) => assert_eq!(
            u,
            "https://www.dell.com/support/home/us/en/04/product-support/product/poweredge-r630/drivers"
        ),
        _ => panic!("expected a navigation"),
    }
    assert!(flow.accepts(&SessionEvent::Loaded));
    assert!(!flow.accepts(&SessionEvent::Clicked));

    let a = flow.step(SessionEvent::Loaded).unwrap();
    assert_eq!(xpath_of(&a), "//select[@id='operating-system']");
    let a = flow.step(SessionEvent::Clicked).unwrap();
    assert_eq!(xpath_of(&a), "//option[@value='NAA']");
    let a = flow.step(SessionEvent::Clicked).unwrap();
    assert_eq!(xpath_of(&a), "//select[@id='ddl-category']");
    let a = flow.step(SessionEvent::Clicked).unwrap();
    assert_eq!(xpath_of(&a), "//option[@value='BI']");
    let a = flow.step(SessionEvent::Clicked).unwrap();
    assert!(matches!(a, SessionAction::ReadSource));

    let source = "<html><body><table><tr>\
        <td>foo</td><td>BIOS Version 13.2.3 info</td><td>Version 2.1</td>\
        </tr></table></body></html>";
    let a = flow.step(SessionEvent::Source(source.to_string())).unwrap();
    assert_eq!(css_of(&a), "button.details-control");
    let a = flow.step(SessionEvent::Clicked).unwrap();
    assert_eq!(css_of(&a), "a.pointer-cursor:nth-child(2)");
    let a = flow.step(SessionEvent::Clicked).unwrap();
    match &a {
        SessionAction::ReadElementHtml(Locator::Css(s)) => assert_eq!(
            s,
            "table.w-100 > tbody:nth-child(2) > tr:nth-child(1) > td:nth-child(1) > a:nth-child(1)"
        ),
        _ => panic!("expected an element-HTML read"),
    }

    let cell = "<td><a href=\"x\">2.6.1</a></td>";
    let last = flow.step(SessionEvent::ElementHtml(cell.to_string()));
    assert!(last.is_none());

    let rec = flow.into_record();
    assert_eq!(rec.vendor, "Dell");
    assert_eq!(rec.model, "PowerEdge R630");
    assert_eq!(rec.current, Some("2.1".to_string()));
    assert_eq!(rec.approved, Some("2.6.1".to_string()));
}

#[test]
fn dell_workflow_leaves_fields_absent_on_empty_pages() {
    let req = ServerIn {
        vendor: "Dell".to_string(),
        model: "y".to_string(),
    };
    let (mut flow, _first) = DellFlow::start(&req);
    flow.step(SessionEvent::Loaded).unwrap();
    flow.step(SessionEvent::Clicked).unwrap();
    flow.step(SessionEvent::Clicked).unwrap();
    flow.step(SessionEvent::Clicked).unwrap();
    flow.step(SessionEvent::Clicked).unwrap();
    flow.step(SessionEvent::Source("<html><body></body></html>".to_string())).unwrap();
    flow.step(SessionEvent::Clicked).unwrap();
    flow.step(SessionEvent::Clicked).unwrap();
    let last = flow.step(SessionEvent::ElementHtml("<td>bare</td>".to_string()));
    assert!(last.is_none());
    let rec = flow.into_record();
    assert_eq!(rec.current, None);
    assert_eq!(rec.approved, None);
}
