use gha_demo::latency::UPPER_RANGE;
use gha_demo::lifecycle::{next, start};
use gha_demo::Event::{Done, Failed, TermSignal};
use gha_demo::{latency_millis, Action, Event, Phase};
use rand::rngs::StdRng;
use rand::SeedableRng;

fn drive(events: &[Event]) -> (Phase, Action) {
    let (mut p, mut a) = start();
    for e in events {
        let r = next(p, *e);
        p = r.0;
        a = r.1;
    }
    (p, a)
}

#[test]
fn latency_stays_under_bound() {
    let mut rng = StdRng::seed_from_u64(7);
    for _ in 0..2000 {
        assert!(latency_millis(&mut rng) < 1000);
    }
    assert_eq!(UPPER_RANGE, 1000);
}

#[test]
fn latency_draw_advances_shared_generator() {
    let mut rng = StdRng::seed_from_u64(3);
    let before = rng.clone();
    latency_millis(&mut rng);
    assert_ne!(rng, before);
    let after_one = rng.clone();
    latency_millis(&mut rng);
    assert_ne!(rng, after_one);
}

#[test]
fn latency_draws_vary() {
    let mut rng = StdRng::seed_from_u64(11);
    let first = latency_millis(&mut rng);
    let mut differs = false;
    for _ in 0..100 {
        if latency_millis(&mut rng) != first {
            differs = true;
        }
    }
    assert!(differs);
}

#[test]
fn lifecycle_starts_by_loading_settings() {
    assert_eq!(start(), (Phase::LoadingSettings, Action::LoadSettings));
}

#[test]
fn startup_stages_run_in_order() {
    assert_eq!(drive(&[Done]), (Phase::InitTelemetry, Action::InitTelemetry));
    assert_eq!(drive(&[Done, Done]), (Phase::ConnectingDb, Action::ConnectDb));
    assert_eq!(drive(&[Done, Done, Done]), (Phase::Migrating, Action::Migrate));
    assert_eq!(drive(&[Done, Done, Done, Done]), (Phase::Binding, Action::Bind));
    assert_eq!(drive(&[Done; 5]), (Phase::Listening, Action::Serve));
}

#[test]
fn signal_while_listening_drains_then_stops() {
    let mut evs = vec![Done; 5];
    evs.push(TermSignal);
    assert_eq!(drive(&evs), (Phase::Draining, Action::Drain));
    evs.push(TermSignal);
    assert_eq!(drive(&evs), (Phase::Draining, Action::Continue));
    evs.push(Done);
    assert_eq!(drive(&evs), (Phase::Stopped, Action::Exit));
}

#[test]
fn startup_failure_aborts() {
    assert_eq!(drive(&[Failed]), (Phase::Stopped, Action::Abort));
    assert_eq!(drive(&[Done, Done, Done, Failed]), (Phase::Stopped, Action::Abort));
    assert_eq!(drive(&[Done, Done, Done, Failed, Done]), (Phase::Stopped, Action::Exit));
}

#[test]
fn signal_before_serving_stops() {
    assert_eq!(drive(&[Done, Done, TermSignal]), (Phase::Stopped, Action::Exit));
    assert_eq!(drive(&[Done, Done, TermSignal, Done]).0, Phase::Stopped);
}

#[test]
fn serve_failure_aborts() {
    let mut evs = vec![Done; 5];
    evs.push(Failed);
    assert_eq!(drive(&evs), (Phase::Stopped, Action::Abort));
}

#[test]
fn stopped_only_exits() {
    assert_eq!(next(Phase::Stopped, Done), (Phase::Stopped, Action::Exit));
    assert_eq!(next(Phase::Stopped, TermSignal), (Phase::Stopped, Action::Exit));
    assert_eq!(next(Phase::Stopped, Failed), (Phase::Stopped, Action::Exit));
}

#[test]
fn serving_that_ends_without_signal_aborts() {
    let mut evs = vec![Done; 5];
    evs.push(Done);
    assert_eq!(drive(&evs), (Phase::Stopped, Action::Abort));
}
