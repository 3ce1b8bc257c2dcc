use gone_branches::{
    classify, examine, short_id, BranchFacts, BranchKind, ClassifyError, Fault, UpstreamLookup,
    Verdict,
};

const TIP: &str = "0123456789abcdef0123456789abcdef01234567";

fn local(name: &str, is_head: bool, configured: bool, upstream: UpstreamLookup) -> BranchFacts {
    BranchFacts {
        kind: BranchKind::Local,
        name: Some(name.to_string()),
        is_head,
        has_upstream_configured: configured,
        upstream,
        tip: Some(TIP.to_string()),
    }
}

fn remote(name: &str) -> BranchFacts {
    BranchFacts {
        kind: BranchKind::Remote,
        name: Some(name.to_string()),
        is_head: false,
        has_upstream_configured: true,
        upstream: UpstreamLookup::NotFound,
        tip: Some(TIP.to_string()),
    }
}

#[test]
fn unconfigured_branch_is_never_gone() {
    for upstream in [
        UpstreamLookup::Resolved,
        UpstreamLookup::NotFound,
        UpstreamLookup::Failed("boom".to_string()),
    ] {
        for is_head in [false, true] {
            let b = local("topic", is_head, false, upstream.clone());
            assert_eq!(examine(&b), Ok(Verdict::UpToDate));
            let c = classify(&vec![b]).unwrap();
            assert!(c.warnings.is_empty());
            assert!(c.deletable.is_empty());
            assert_eq!(c.up_to_date, vec!["topic".to_string()]);
        }
    }
}

#[test]
fn resolved_upstream_is_up_to_date() {
    let b = local("feature-a", false, true, UpstreamLookup::Resolved);
    assert_eq!(examine(&b), Ok(Verdict::UpToDate));
    let c = classify(&vec![b]).unwrap();
    assert!(c.deletable.is_empty());
    assert_eq!(c.up_to_date, vec!["feature-a".to_string()]);
}

#[test]
fn missing_upstream_not_checked_out_is_deletable() {
    let b = local("old-work", false, true, UpstreamLookup::NotFound);
    assert_eq!(examine(&b), Ok(Verdict::Deletable));
    let c = classify(&vec![b]).unwrap();
    assert!(c.warnings.is_empty());
    assert_eq!(c.deletable.len(), 1);
    assert_eq!(c.deletable[0].name, "old-work");
    assert_eq!(c.deletable[0].short_id, "0123456");
}

#[test]
fn missing_upstream_checked_out_only_warns() {
    let b = local("current", true, true, UpstreamLookup::NotFound);
    assert_eq!(examine(&b), Ok(Verdict::CheckedOutGone));
    let c = classify(&vec![b]).unwrap();
    assert_eq!(c.warnings, vec!["current".to_string()]);
    assert!(c.deletable.is_empty());
    assert!(c.up_to_date.is_empty());
}

#[test]
fn remote_branches_are_skipped() {
    let b = remote("origin/old-work");
    assert_eq!(examine(&b), Ok(Verdict::Skipped));
    let mut nameless = remote("origin/x");
    nameless.name = None;
    let c = classify(&vec![b, nameless]).unwrap();
    assert!(c.warnings.is_empty());
    assert!(c.deletable.is_empty());
    assert!(c.up_to_date.is_empty());
}

#[test]
fn scenario_mixed_repository() {
    let branches = vec![
        local("main", false, false, UpstreamLookup::NotFound),
        local("feature-a", false, true, UpstreamLookup::Resolved),
        local("old-work", false, true, UpstreamLookup::NotFound),
        local("current", true, true, UpstreamLookup::NotFound),
        remote("origin/main"),
    ];
    let c = classify(&branches).unwrap();
    assert_eq!(c.warnings, vec!["current".to_string()]);
    assert_eq!(c.deletable.len(), 1);
    assert_eq!(c.deletable[0].name, "old-work");
    assert_eq!(c.deletable[0].short_id, "0123456");
    assert_eq!(c.up_to_date, vec!["main".to_string(), "feature-a".to_string()]);
}

#[test]
fn no_branches_give_empty_classification() {
    let c = classify(&vec![]).unwrap();
    assert!(c.warnings.is_empty());
    assert!(c.deletable.is_empty());
    assert!(c.up_to_date.is_empty());
}

#[test]
fn unreadable_name_is_fatal() {
    let mut b = local("x", false, false, UpstreamLookup::Resolved);
    b.name = None;
    assert_eq!(examine(&b), Err(Fault::UnreadableName));
    let branches = vec![local("ok", false, false, UpstreamLookup::Resolved), b];
    assert_eq!(
        classify(&branches).unwrap_err(),
        ClassifyError { index: 1, fault: Fault::UnreadableName }
    );
}

#[test]
fn other_upstream_failure_is_fatal_when_configured() {
    let b = local("broken", false, true, UpstreamLookup::Failed("corrupt ref".to_string()));
    assert_eq!(examine(&b), Err(Fault::UpstreamUnresolvable));
    assert_eq!(
        classify(&vec![b]).unwrap_err(),
        ClassifyError { index: 0, fault: Fault::UpstreamUnresolvable }
    );
}

#[test]
fn first_fault_stops_classification() {
    let mut nameless = local("x", false, false, UpstreamLookup::Resolved);
    nameless.name = None;
    let branches = vec![
        local("old-work", false, true, UpstreamLookup::NotFound),
        local("broken", false, true, UpstreamLookup::Failed("io".to_string())),
        nameless,
    ];
    assert_eq!(
        classify(&branches).unwrap_err(),
        ClassifyError { index: 1, fault: Fault::UpstreamUnresolvable }
    );
}

#[test]
fn deletable_branch_needs_a_tip() {
    let mut no_tip = local("old-work", false, true, UpstreamLookup::NotFound);
    no_tip.tip = None;
    assert_eq!(examine(&no_tip), Err(Fault::InvalidTip));
    let mut short_tip = local("old-work", false, true, UpstreamLookup::NotFound);
    short_tip.tip = Some("abc".to_string());
    assert_eq!(
        classify(&vec![short_tip]).unwrap_err(),
        ClassifyError { index: 0, fault: Fault::InvalidTip }
    );
    let mut head_no_tip = local("current", true, true, UpstreamLookup::NotFound);
    head_no_tip.tip = None;
    assert_eq!(examine(&head_no_tip), Ok(Verdict::CheckedOutGone));
}

#[test]
fn short_id_takes_seven_characters() {
    assert_eq!(short_id(TIP), "0123456");
    assert_eq!(short_id("abcdefg"), "abcdefg");
}
