//! Tests for the individual checks and the aggregate, including the two
//! concrete snapshot scenarios and the absent-field default policy.

use nix_health::{
    Caches, Check, FlakeEnabled, MaxJobs, NixHealth, NixInfo, NoDetails, Report,
};

const CACHE_URL: &str = "https://cache.nixos.org";

fn strings(items: &[&str]) -> Option<Vec<String>> {
    Some(items.iter().map(|s| s.to_string()).collect())
}

fn failing_snapshot() -> NixInfo {
    NixInfo {
        max_jobs: Some(1),
        substituters: strings(&[]),
        experimental_features: strings(&[]),
    }
}

fn passing_snapshot() -> NixInfo {
    NixInfo {
        max_jobs: Some(8),
        substituters: strings(&[CACHE_URL]),
        experimental_features: strings(&["flakes"]),
    }
}

#[test]
fn failing_snapshot_fails_every_leaf() {
    let info = failing_snapshot();

    let max_jobs = MaxJobs::check(&info);
    assert_eq!(max_jobs.jobs, 1);
    let r = max_jobs.report();
    assert!(!r.is_pass());
    let items = r.details();
    assert_eq!(items.len(), 1);
    assert_eq!(items[0].instruction, "Set max-jobs to at least 2 in nix.conf");
    assert_eq!(items[0].note, Some("max-jobs is currently 1".to_string()));

    let caches = Caches::check(&info);
    let r = caches.report();
    assert!(!r.is_pass());
    let items = r.details();
    assert_eq!(items.len(), 1);
    assert!(items[0].instruction.contains(CACHE_URL));

    let flakes = FlakeEnabled::check(&info);
    let r = flakes.report();
    assert!(!r.is_pass());
    let items = r.details();
    assert_eq!(items.len(), 1);
    assert_eq!(items[0].instruction, "Add flakes to experimental-features in nix.conf");
}

#[test]
fn failing_snapshot_fails_aggregate_without_detail() {
    let health = NixHealth::check(&failing_snapshot());
    assert_eq!(health.report(), Report::Fail(NoDetails));
}

#[test]
fn passing_snapshot_passes_every_leaf_and_aggregate() {
    let info = passing_snapshot();
    assert!(MaxJobs::check(&info).report().is_pass());
    assert!(Caches::check(&info).report().is_pass());
    assert!(FlakeEnabled::check(&info).report().is_pass());

    let health = NixHealth::check(&info);
    assert_eq!(health.report(), Report::<NoDetails>::Pass);
    for leaf in health.leaves() {
        assert!(leaf.report().is_pass());
    }
}

#[test]
fn one_failing_leaf_fails_aggregate() {
    let mut info = passing_snapshot();
    info.experimental_features = strings(&[]);
    let health = NixHealth::check(&info);
    assert!(FlakeEnabled::check(&info).report().is_pass() == false);
    assert_eq!(health.report(), Report::Fail(NoDetails));
}

#[test]
fn absent_fields_resolve_to_defaults() {
    let info = NixInfo { max_jobs: None, substituters: None, experimental_features: None };

    // max-jobs defaults to 1, which is below the recommended minimum.
    let max_jobs = MaxJobs::check(&info);
    assert_eq!(max_jobs.jobs, 1);
    assert!(!max_jobs.report().is_pass());

    // The substituter list defaults to the required cache alone.
    let caches = Caches::check(&info);
    assert_eq!(caches.substituters, vec![CACHE_URL.to_string()]);
    assert!(caches.report().is_pass());

    // The experimental-feature list defaults to empty: flakes disabled.
    let flakes = FlakeEnabled::check(&info);
    assert!(flakes.features.is_empty());
    assert!(!flakes.report().is_pass());

    // Construction never fails and the reports are repeatable.
    assert_eq!(max_jobs.report(), max_jobs.report());
    assert_eq!(caches.report(), caches.report());
    assert_eq!(flakes.report(), flakes.report());
}

#[test]
fn iteration_order_is_fixed_and_repeatable() {
    let health = NixHealth::check(&passing_snapshot());
    let names: Vec<&str> = health.leaves().iter().map(|l| l.name()).collect();
    assert_eq!(names, vec!["Max Jobs", "Nix Caches", "Flakes Enabled"]);

    let again: Vec<&str> = health.leaves().iter().map(|l| l.name()).collect();
    assert_eq!(names, again);

    // Names are unique within the aggregate.
    assert_ne!(names[0], names[1]);
    assert_ne!(names[0], names[2]);
    assert_ne!(names[1], names[2]);

    let first: Vec<Report<_>> = health.leaves().iter().map(|l| l.report()).collect();
    let second: Vec<Report<_>> = health.leaves().iter().map(|l| l.report()).collect();
    assert_eq!(first, second);
}

#[test]
fn aggregate_name_is_fixed() {
    let health = NixHealth::check(&passing_snapshot());
    assert_eq!(health.name(), "Nix Health");
}

#[test]
fn equal_state_gives_equal_reports() {
    // The report is a pure function of the check's stored state, so a value
    // rebuilt field for field (as after a serialization round trip) reports
    // identically.
    let a = NixHealth::check(&failing_snapshot());
    let b = NixHealth {
        max_jobs: MaxJobs { jobs: a.max_jobs.jobs },
        caches: Caches { substituters: a.caches.substituters.clone() },
        flake_enabled: FlakeEnabled { features: a.flake_enabled.features.clone() },
    };
    assert_eq!(a.report(), b.report());
    assert_eq!(a.max_jobs.report(), b.max_jobs.report());
    assert_eq!(a.caches.report(), b.caches.report());
    assert_eq!(a.flake_enabled.report(), b.flake_enabled.report());
}

#[test]
fn cloned_aggregate_reports_identically() {
    let health = NixHealth::check(&failing_snapshot());
    let copy = health.clone();
    assert_eq!(copy, health);
    assert_eq!(copy.report(), health.report());
}

#[test]
fn cache_url_among_others_passes() {
    let info = NixInfo {
        max_jobs: Some(4),
        substituters: strings(&["https://example.cache", CACHE_URL, "https://other.cache"]),
        experimental_features: strings(&["nix-command", "flakes"]),
    };
    assert!(Caches::check(&info).report().is_pass());
    assert!(FlakeEnabled::check(&info).report().is_pass());
}

#[test]
fn describe_reports_extracted_state() {
    let info = passing_snapshot();
    let health = NixHealth::check(&info);
    assert_eq!(health.max_jobs.describe(), "max-jobs = 8");
    assert_eq!(health.caches.describe(), "1 substituters configured");
    assert_eq!(health.flake_enabled.describe(), "flakes is enabled");

    let none = NixInfo { max_jobs: None, substituters: None, experimental_features: None };
    assert_eq!(FlakeEnabled::check(&none).describe(), "flakes is disabled");
    let leaf_texts: Vec<String> =
        health.leaves().iter().map(|l| l.describe()).collect();
    assert_eq!(leaf_texts, vec!["max-jobs = 8", "1 substituters configured", "flakes is enabled"]);
}

#[test]
fn decimal_rendering_is_exact() {
    assert_eq!(nix_health::u64_to_dec(0), "0");
    assert_eq!(nix_health::u64_to_dec(7), "7");
    assert_eq!(nix_health::u64_to_dec(40), "40");
    assert_eq!(nix_health::u64_to_dec(1234567890), "1234567890");
    assert_eq!(nix_health::u64_to_dec(u64::MAX), "18446744073709551615");
}
