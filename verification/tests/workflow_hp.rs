use fw_pull::error::FwPullError;
use fw_pull::hp::{get_hp_date_sort_url, HpFlow};
use fw_pull::session::{Locator, SessionAction, SessionEvent};
use fw_pull::ServerIn;

const HOME: &str = "https://support.hpe.com/hpesc/public/home";

const RESULTS_URL: &str = "https://support.hpe.com/results\
#t=DriversandSoftware&sort=relevancy&layout=table&numberOfResults=25&f:foo=bar";

const SORTED_URL: &str = "https://support.hpe.com/results\
#t=DriversandSoftware&sort=%40hpescuniversaldate descending&layout=table&numberOfResults=25&f:foo=bar";

#[test]
fn date_sort_rewrite_replaces_the_fragment_prefix() {
    assert_eq!(get_hp_date_sort_url(RESULTS_URL), Some(SORTED_URL.to_string()));
}

#[test]
fn date_sort_rewrite_fails_without_a_matching_fragment() {
    assert_eq!(get_hp_date_sort_url("https://support.hpe.com/results"), None);
    assert_eq!(
        get_hp_date_sort_url("https://support.hpe.com/results#t=Documents&sort=relevancy"),
        None
    );
}

fn walk_to_read_url(model: &str) -> HpFlow {
    let req = ServerIn {
        vendor: "Hp".to_string(),
        model: model.to_string(),
    };
    let (mut flow, first) = HpFlow::start(&req);
    match &first {
        SessionAction::Navigate(u) => assert_eq!(u, HOME),
        _ => panic!("expected a navigation"),
    }

    let a = flow.step(SessionEvent::Loaded).unwrap().unwrap();
    match &a {
        SessionAction::WaitType(Locator::Css(s), text) => {
            assert_eq!(s, ".magic-box-input > input:nth-child(2)");
            assert_eq!(text, model);
        },
        _ => panic!("expected typing into the search box"),
    }
    let a = flow.step(SessionEvent::Typed).unwrap().unwrap();
    assert!(matches!(&a, SessionAction::WaitClick(Locator::Css(s)) if s == ".CoveoSearchButton"));
    let a = flow.step(SessionEvent::Clicked).unwrap().unwrap();
    assert!(matches!(&a, SessionAction::WaitClick(Locator::Css(_))));
    let a = flow.step(SessionEvent::Clicked).unwrap().unwrap();
    assert!(matches!(a, SessionAction::WaitNavigation));
    let a = flow.step(SessionEvent::Loaded).unwrap().unwrap();
    assert!(matches!(&a, SessionAction::WaitFind(Locator::Css(_))));
    let a = flow.step(SessionEvent::Found).unwrap().unwrap();
    assert!(matches!(a, SessionAction::ReadCurrentUrl));
    flow
}

#[test]
fn hp_workflow_extracts_both_versions() {
    let mut flow = walk_to_read_url("ProLiant DL380");

    let a = flow
        .step(SessionEvent::CurrentUrl(RESULTS_URL.to_string()))
        .unwrap()
        .unwrap();
    assert!(matches!(&a, SessionAction::Navigate(u) if u == HOME));
    let a = flow.step(SessionEvent::Loaded).unwrap().unwrap();
    assert!(matches!(&a, SessionAction::Navigate(u) if u == SORTED_URL));
    let a = flow.step(SessionEvent::Loaded).unwrap().unwrap();
    assert!(matches!(&a, SessionAction::ReadElementHtml(Locator::Css(_))));

    let link_html = "<td><a href=\"https://support.hpe.com/rev/42\">revision</a></td>";
    let a = flow
        .step(SessionEvent::ElementHtml(link_html.to_string()))
        .unwrap()
        .unwrap();
    assert!(matches!(&a, SessionAction::Navigate(u) if u == "https://support.hpe.com/rev/42"));
    let a = flow.step(SessionEvent::Loaded).unwrap().unwrap();
    assert!(matches!(&a, SessionAction::WaitFind(Locator::Css(s)) if s == "#ui-id-6"));
    let a = flow.step(SessionEvent::Found).unwrap().unwrap();
    assert!(matches!(a, SessionAction::ReadSource));

    let source = "<html><body>\
        <b>Version 3.10 — System ROM</b>\
        <b>irrelevant</b>\
        <b>Version 3.12 — System ROM</b>\
        <b>Version 3.99</b>\
        </body></html>";
    let last = flow.step(SessionEvent::Source(source.to_string())).unwrap();
    assert!(last.is_none());

    let rec = flow.into_record();
    assert_eq!(rec.vendor, "Hp");
    assert_eq!(rec.model, "ProLiant DL380");
    assert_eq!(rec.current, Some("3.10".to_string()));
    assert_eq!(rec.approved, Some("3.12".to_string()));
}

#[test]
fn hp_workflow_fails_when_no_sorted_url_can_be_built() {
    let mut flow = walk_to_read_url("ProLiant DL380");
    let r = flow.step(SessionEvent::CurrentUrl(
        "https://support.hpe.com/results".to_string(),
    ));
    match r {
        Err(FwPullError::SoupNotFound(m)) => assert_eq!(m, "Could not navigate to new url"),
        _ => panic!("expected the sorted-URL failure"),
    }
}

#[test]
fn hp_workflow_fails_on_a_missing_revision_anchor() {
    let mut flow = walk_to_read_url("m");
    flow.step(SessionEvent::CurrentUrl(RESULTS_URL.to_string()))
        .unwrap();
    flow.step(SessionEvent::Loaded).unwrap();
    flow.step(SessionEvent::Loaded).unwrap();
    let r = flow.step(SessionEvent::ElementHtml("<td>none</td>".to_string()));
    match r {
        Err(FwPullError::SoupNotFound(m)) => assert_eq!(m, "a"),
        _ => panic!("expected the missing-anchor failure"),
    }
}

#[test]
fn hp_workflow_fails_on_an_anchor_without_href() {
    let mut flow = walk_to_read_url("m");
    flow.step(SessionEvent::CurrentUrl(RESULTS_URL.to_string()))
        .unwrap();
    flow.step(SessionEvent::Loaded).unwrap();
    flow.step(SessionEvent::Loaded).unwrap();
    let r = flow.step(SessionEvent::ElementHtml("<td><a>bare</a></td>".to_string()));
    match r {
        Err(FwPullError::SoupNotFound(m)) => assert_eq!(m, "href.to_string"),
        _ => panic!("expected the missing-href failure"),
    }
}
