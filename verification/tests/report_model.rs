//! Tests for the report model: verdicts, projections, details.

use nix_health::{NoDetails, Remedy, Report, WithDetails};

fn fail_with_one_item() -> Report<WithDetails> {
    Report::Fail(WithDetails {
        remedies: vec![Remedy {
            instruction: "do the thing".to_string(),
            note: Some("context".to_string()),
        }],
    })
}

#[test]
fn without_details_keeps_pass() {
    let r: Report<WithDetails> = Report::Pass;
    assert_eq!(r.without_details(), Report::<NoDetails>::Pass);
    assert!(r.without_details().is_pass());
    assert!(r.without_details().details().is_empty());
}

#[test]
fn without_details_discards_fail_payload() {
    let r = fail_with_one_item();
    assert_eq!(r.without_details(), Report::Fail(NoDetails));
    assert!(!r.without_details().is_pass());
    assert!(r.without_details().details().is_empty());
}

#[test]
fn pass_reports_agree_across_payload_shapes() {
    let detailed: Report<WithDetails> = Report::Pass;
    let bare: Report<NoDetails> = Report::Pass;
    assert!(detailed.is_pass());
    assert!(bare.is_pass());
    assert_eq!(detailed.without_details(), bare);
    assert_eq!(detailed.without_details(), bare.without_details());
}

#[test]
fn details_empty_for_pass() {
    let r: Report<WithDetails> = Report::Pass;
    assert!(r.details().is_empty());
}

#[test]
fn details_returned_for_fail() {
    let r = fail_with_one_item();
    let items = r.details();
    assert_eq!(items.len(), 1);
    assert_eq!(items[0].instruction, "do the thing");
    assert_eq!(items[0].note, Some("context".to_string()));
}

#[test]
fn remedy_clone_is_field_for_field() {
    let r = Remedy { instruction: "fix it".to_string(), note: None };
    assert_eq!(r.clone(), r);
}
