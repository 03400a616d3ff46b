use sup_client::ident::PackageIdent;
use sup_client::updater::{
    update_frequency, ChannelState, InstallOutcome, PollAction, SelfUpdater, UpdateStep,
    DEFAULT_FREQUENCY, FREQUENCY_ENVVAR, SUP_PKG_IDENT,
};

fn ident(version: &[u64], release: u64) -> PackageIdent {
    PackageIdent {
        origin: "biome".to_string(),
        name: "bio-sup".to_string(),
        version: version.to_vec(),
        release,
    }
}

fn updater() -> SelfUpdater {
    SelfUpdater::new(ident(&[1, 2, 0], 20200101000000), "https://bldr.example".to_string(), "stable".to_string())
}

#[test]
fn constants() {
    assert_eq!(DEFAULT_FREQUENCY, 60_000);
    assert_eq!(FREQUENCY_ENVVAR, "HAB_SUP_UPDATE_MS");
    assert_eq!(SUP_PKG_IDENT, "biome/bio-sup");
}

#[test]
fn frequency_default_and_override() {
    assert_eq!(update_frequency(None), 60_000);
    assert_eq!(update_frequency(Some("5000")), 5000);
    assert_eq!(update_frequency(Some("+42")), 42);
    assert_eq!(update_frequency(Some("-10")), -10);
    assert_eq!(update_frequency(Some("9223372036854775807")), i64::MAX);
}

#[test]
fn frequency_non_numeric_falls_back() {
    assert_eq!(update_frequency(Some("soon")), 60_000);
    assert_eq!(update_frequency(Some("")), 60_000);
    assert_eq!(update_frequency(Some("12ms")), 60_000);
    assert_eq!(update_frequency(Some(" 12")), 60_000);
    assert_eq!(update_frequency(Some("-")), 60_000);
    assert_eq!(update_frequency(Some("9223372036854775808")), 60_000);
}

#[test]
fn newer_version_or_release() {
    let cur = ident(&[1, 2, 0], 20200101000000);
    assert!(ident(&[1, 3, 0], 1).is_newer_than(&cur));
    assert!(ident(&[1, 2, 0, 1], 1).is_newer_than(&cur));
    assert!(ident(&[1, 10], 1).is_newer_than(&ident(&[1, 9, 9], 5)));
    assert!(ident(&[1, 2, 0], 20200101000001).is_newer_than(&cur));
    assert!(!ident(&[1, 2, 0], 20200101000000).is_newer_than(&cur));
    assert!(!ident(&[1, 1, 9], 20300101000000).is_newer_than(&cur));
    assert!(!ident(&[1, 2], 20300101000000).is_newer_than(&cur));
}

#[test]
fn other_package_is_never_newer() {
    let cur = ident(&[1, 2, 0], 1);
    let mut other = ident(&[9, 9, 9], 9);
    other.name = "bio-launcher".to_string();
    assert!(!other.is_newer_than(&cur));
    let mut fork = ident(&[9, 9, 9], 9);
    fork.origin = "someone".to_string();
    assert!(fork.is_newer_than(&cur));
}

#[test]
fn newer_build_is_delivered() {
    let cur = ident(&[1, 2, 0], 1);
    match SelfUpdater::run_step(&cur, InstallOutcome::Installed(ident(&[1, 3, 0], 1)), 0, 60_000, 5) {
        UpdateStep::Deliver(p) => assert_eq!(p, ident(&[1, 3, 0], 1)),
        other => panic!("unexpected {:?}", other),
    }
}

#[test]
fn same_build_waits_rest_of_interval() {
    let cur = ident(&[1, 2, 0], 1);
    match SelfUpdater::run_step(&cur, InstallOutcome::Installed(ident(&[1, 2, 0], 1)), 1_000, 60_000, 3_500) {
        UpdateStep::Wait(ms) => assert_eq!(ms, 57_500),
        other => panic!("unexpected {:?}", other),
    }
}

#[test]
fn failed_check_waits() {
    let cur = ident(&[1, 2, 0], 1);
    match SelfUpdater::run_step(&cur, InstallOutcome::Failed("network down".to_string()), 0, 60_000, 0) {
        UpdateStep::Wait(ms) => assert_eq!(ms, 60_000),
        other => panic!("unexpected {:?}", other),
    }
}

#[test]
fn slow_install_runs_again_at_once() {
    let cur = ident(&[1, 2, 0], 1);
    match SelfUpdater::run_step(&cur, InstallOutcome::Failed("slow".to_string()), 0, 60_000, 90_000) {
        UpdateStep::Wait(ms) => assert_eq!(ms, 0),
        other => panic!("unexpected {:?}", other),
    }
    match SelfUpdater::run_step(&cur, InstallOutcome::Failed("x".to_string()), 10, -100, 10) {
        UpdateStep::Wait(ms) => assert_eq!(ms, 0),
        other => panic!("unexpected {:?}", other),
    }
    match SelfUpdater::run_step(&cur, InstallOutcome::Failed("x".to_string()), u64::MAX, i64::MAX, 0) {
        UpdateStep::Wait(ms) => assert_eq!(ms, u64::MAX),
        other => panic!("unexpected {:?}", other),
    }
}

#[test]
fn same_build_forever_never_polls_a_value() {
    let cur = ident(&[1, 2, 0], 1);
    let mut u = updater();
    for round in 0..50u64 {
        let step = SelfUpdater::run_step(&cur, InstallOutcome::Installed(ident(&[1, 2, 0], 1)), round, 60_000, round);
        assert!(matches!(step, UpdateStep::Wait(_)));
        assert!(matches!(u.updated(ChannelState::Empty), PollAction::NotYet));
    }
    assert!(u.is_watching());
}

#[test]
fn newer_build_polled_exactly_once() {
    let mut u = updater();
    assert!(matches!(u.updated(ChannelState::Empty), PollAction::NotYet));
    assert!(matches!(u.updated(ChannelState::Empty), PollAction::NotYet));
    match u.updated(ChannelState::Ready(ident(&[1, 3, 0], 7))) {
        PollAction::Deliver(p) => assert_eq!(p, ident(&[1, 3, 0], 7)),
        other => panic!("unexpected {:?}", other),
    }
    assert!(!u.is_watching());
    assert!(matches!(u.updated(ChannelState::Closed), PollAction::NotYet));
    assert!(matches!(u.updated(ChannelState::Ready(ident(&[1, 4, 0], 1))), PollAction::NotYet));
    assert!(matches!(u.updated(ChannelState::Empty), PollAction::NotYet));
}

#[test]
fn dead_watch_is_restarted_and_poll_gives_nothing() {
    let mut u = updater();
    assert!(matches!(u.updated(ChannelState::Closed), PollAction::Restart));
    assert!(u.is_watching());
    assert!(matches!(u.updated(ChannelState::Empty), PollAction::NotYet));
    assert!(matches!(u.updated(ChannelState::Closed), PollAction::Restart));
    assert_eq!(u.current(), &ident(&[1, 2, 0], 20200101000000));
    assert_eq!(u.update_url(), "https://bldr.example");
    assert_eq!(u.update_channel(), "stable");
}
