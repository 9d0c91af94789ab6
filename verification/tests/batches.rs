use webshot::dispatch::Batch;
use webshot::effective_limit;
use webshot::session::{build_capability_plan, control_endpoint, quits_after_batch, BrowserFamily, CapabilityPlan};
use webshot::target::{plan, Target, WorkUnit};
use webshot::unit::{failure_notice, unit_step, UnitAction, UnitEvent, UnitPhase};

fn unit(url: &str, path: &str) -> WorkUnit {
    WorkUnit {
        url: String::from(url),
        path: String::from(path),
    }
}

#[test]
fn empty_target_set_completes_immediately() {
    let targets: Vec<Target> = Vec::new();
    let units = plan(&targets);
    let mut batch = Batch::new(units, 5);
    assert!(batch.is_complete());
    assert!(batch.try_start().is_none());
    assert!(batch.is_complete());
}

#[test]
fn admission_never_exceeds_the_limit() {
    let units = vec![
        unit("https://a", "a.png"),
        unit("https://b", "b.png"),
        unit("https://c", "c.png"),
        unit("https://d", "d.png"),
    ];
    let mut batch = Batch::new(units, 2);
    assert!(batch.try_start().is_some());
    assert!(batch.try_start().is_some());
    assert!(batch.active <= 2);
    // Both slots taken: the third admission is refused.
    assert!(batch.try_start().is_none());
    batch.finish_one();
    assert!(batch.active <= 2);
    // A slot freed: admission works again.
    assert!(batch.try_start().is_some());
    assert!(batch.try_start().is_none());
}

#[test]
fn one_failure_does_not_sink_the_batch() {
    let units = vec![
        unit("https://bad", "bad.png"),
        unit("https://good", "good.png"),
    ];
    let mut batch = Batch::new(units, 2);
    let first = batch.try_start().expect("a slot is free");
    let second = batch.try_start().expect("a slot is free");

    // The first unit fails its navigation: it aborts with a notice and no
    // capture is attempted.
    let (phase, action) = unit_step(UnitPhase::Navigating, UnitEvent::NavigationFailed);
    assert_eq!(phase, UnitPhase::Failed);
    assert_eq!(action, Some(UnitAction::ReportFailure));
    let notice = failure_notice(&second.url);
    assert_eq!(notice, format!("Failed to take screenshot of {}", second.url));
    batch.finish_one();
    assert!(!batch.is_complete());

    // The sibling unit runs to the end regardless.
    let (phase, action) = unit_step(UnitPhase::Navigating, UnitEvent::NavigationOk);
    assert_eq!(phase, UnitPhase::Capturing);
    assert_eq!(action, Some(UnitAction::Capture));
    let (phase, action) = unit_step(phase, UnitEvent::CaptureOk);
    assert_eq!(phase, UnitPhase::Done);
    assert_eq!(action, None);
    batch.finish_one();

    // The batch returns normally once both units finished.
    assert!(batch.is_complete());
    assert_eq!(batch.done, 2);
    let _ = first;
}

#[test]
fn capture_failure_also_reports() {
    let (phase, action) = unit_step(UnitPhase::Capturing, UnitEvent::CaptureFailed);
    assert_eq!(phase, UnitPhase::Failed);
    assert_eq!(action, Some(UnitAction::ReportFailure));
}

#[test]
fn notice_names_the_offending_url() {
    assert_eq!(
        failure_notice("https://example.com"),
        "Failed to take screenshot of https://example.com"
    );
}

#[test]
fn limit_defaults_to_five() {
    assert_eq!(effective_limit(None), 5);
    assert_eq!(effective_limit(Some(9)), 9);
    assert_eq!(effective_limit(Some(1)), 1);
}

#[test]
fn capability_plan_is_headless_and_ordered() {
    let plan = build_capability_plan(Some(vec![
        String::from("--window-size=1920,1080"),
        String::from("--no-sandbox"),
    ]));
    assert!(plan.headless);
    assert_eq!(plan.args, vec!["--window-size=1920,1080", "--no-sandbox"]);

    let bare = build_capability_plan(None);
    assert!(bare.headless);
    assert!(bare.args.is_empty());

    let mut by_hand = CapabilityPlan::new();
    by_hand.add_arg(String::from("-devtools"));
    assert_eq!(by_hand.args, vec!["-devtools"]);
}

#[test]
fn each_family_has_its_endpoint() {
    assert_eq!(control_endpoint(BrowserFamily::Chrome), "http://localhost:9515");
    assert_eq!(control_endpoint(BrowserFamily::Firefox), "http://localhost:4444");
}

#[test]
fn only_firefox_quits_after_the_batch() {
    assert!(!quits_after_batch(BrowserFamily::Chrome));
    assert!(quits_after_batch(BrowserFamily::Firefox));
}
