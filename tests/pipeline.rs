use meater::channel::{Consumer, UpdateChannel};
use meater::display::DisplayState;
use meater::poller::{Phase, PollAction, PollEvent, Poller, POLL_INTERVAL_SECS};
use meater::telemetry::{
    malformed, Cook, CookTemperature, Device, MeaterData, MeaterResponse, Temperature, Time,
};
use meater::App;

fn state(n: i64) -> DisplayState {
    let mut d = DisplayState::initial();
    d.internal_temp_f = n;
    d
}

fn payload(devices: Vec<Device>) -> MeaterResponse {
    MeaterResponse {
        status: "OK".to_string(),
        status_code: 200,
        data: MeaterData { devices },
    }
}

fn device(internal: i32) -> Device {
    Device {
        id: "d".to_string(),
        temperature: Temperature { internal, ambient: 2000 },
        cook: Some(Cook {
            id: "c".to_string(),
            name: "Ribs".to_string(),
            state: "Resting".to_string(),
            temperature: CookTemperature { target: 9000, peak: 9100 },
            time: Time { elapsed: 60, remaining: 0 },
        }),
        updated_at: None,
    }
}

#[test]
fn app_polls_every_two_seconds() {
    assert_eq!(App::new().poll_interval_secs, 2);
    assert_eq!(POLL_INTERVAL_SECS, 2);
}

#[test]
fn channel_starts_with_initial_display() {
    let ch = UpdateChannel::new();
    assert_eq!(ch.version(), 0);
    assert_eq!(*ch.latest(), DisplayState::initial());
    let mut c = Consumer::new();
    assert_eq!(c.receive(&ch), None);
    assert_eq!(c.seen, 0);
}

#[test]
fn latest_value_wins() {
    let mut ch = UpdateChannel::new();
    let mut c = Consumer::new();
    ch.publish(state(1));
    assert_eq!(c.receive(&ch), Some(&state(1)));
    ch.publish(state(2));
    ch.publish(state(3));
    ch.publish(state(4));
    assert_eq!(c.receive(&ch), Some(&state(4)));
    assert_eq!(c.seen, 4);
    // nothing newer: no read, and never an older state
    assert_eq!(c.receive(&ch), None);
    assert_eq!(c.seen, 4);
    assert_eq!(*ch.latest(), state(4));
}

fn start() -> (Poller, UpdateChannel) {
    let mut p = Poller::new();
    let mut ch = UpdateChannel::new();
    assert_eq!(p.step(PollEvent::Started { credential_found: true }, &mut ch), PollAction::Fetch);
    assert_eq!(p.phase, Phase::Fetching);
    (p, ch)
}

#[test]
fn failures_then_success_publishes_once() {
    let (mut p, mut ch) = start();
    let mut consumer = Consumer::new();
    for _ in 0..3 {
        assert_eq!(p.step(PollEvent::RequestFailed, &mut ch), PollAction::Sleep);
        assert_eq!(p.phase, Phase::FetchFailed);
        assert_eq!(ch.version(), 0);
        assert_eq!(*ch.latest(), DisplayState::initial());
        assert_eq!(consumer.receive(&ch), None);
        assert_eq!(p.step(PollEvent::Slept, &mut ch), PollAction::Fetch);
        assert_eq!(p.phase, Phase::Fetching);
    }
    let body = payload(vec![device(4500)]);
    assert_eq!(p.step(PollEvent::Received(Ok(body)), &mut ch), PollAction::Sleep);
    assert_eq!(p.phase, Phase::Published);
    assert_eq!(ch.version(), 1);
    let shown = consumer.receive(&ch).cloned().unwrap();
    assert_eq!(shown.internal_temp_f, 113000);
    assert_eq!(shown.target_temp_f, 194000);
    assert_eq!(shown.time_elapsed, "00:01:00");
    assert_eq!(shown.time_remaining, "00:00:00");
    assert_eq!(shown.cook_info, "Ribs: Resting");
    assert_eq!(shown.internal_temp_color, 1);
}

#[test]
fn decode_failures_keep_last_good_display() {
    let (mut p, mut ch) = start();
    p.step(PollEvent::Received(Ok(payload(vec![device(4500)]))), &mut ch);
    let good = ch.latest().clone();
    p.step(PollEvent::Slept, &mut ch);
    assert_eq!(p.step(PollEvent::Received(Ok(payload(vec![]))), &mut ch), PollAction::Sleep);
    assert_eq!(p.phase, Phase::DecodeFailed);
    p.step(PollEvent::Slept, &mut ch);
    assert_eq!(p.step(PollEvent::Received(Err(malformed("<html>"))), &mut ch), PollAction::Sleep);
    assert_eq!(p.phase, Phase::DecodeFailed);
    assert_eq!(ch.version(), 1);
    assert_eq!(*ch.latest(), good);
    assert_eq!(p.step(PollEvent::Slept, &mut ch), PollAction::Fetch);
}

#[test]
fn missing_credential_aborts() {
    let mut p = Poller::new();
    let mut ch = UpdateChannel::new();
    assert_eq!(p.step(PollEvent::Started { credential_found: false }, &mut ch), PollAction::Abort);
    assert_eq!(p.phase, Phase::Aborted);
    assert_eq!(p.step(PollEvent::Slept, &mut ch), PollAction::Nothing);
    assert_eq!(p.step(PollEvent::Started { credential_found: true }, &mut ch), PollAction::Nothing);
    assert_eq!(p.phase, Phase::Aborted);
    assert_eq!(ch.version(), 0);
}

#[test]
fn stop_between_cycles_only() {
    let (mut p, mut ch) = start();
    assert_eq!(p.step(PollEvent::StopRequested, &mut ch), PollAction::Nothing);
    assert_eq!(p.phase, Phase::Fetching);
    p.step(PollEvent::RequestFailed, &mut ch);
    assert_eq!(p.step(PollEvent::StopRequested, &mut ch), PollAction::Stop);
    assert_eq!(p.phase, Phase::Stopped);
    assert_eq!(p.step(PollEvent::Slept, &mut ch), PollAction::Nothing);
}

#[test]
fn events_out_of_phase_are_ignored() {
    let mut p = Poller::new();
    let mut ch = UpdateChannel::new();
    assert_eq!(p.step(PollEvent::Received(Ok(payload(vec![device(1)]))), &mut ch), PollAction::Nothing);
    assert_eq!(p.step(PollEvent::RequestFailed, &mut ch), PollAction::Nothing);
    assert_eq!(p.phase, Phase::Idle);
    assert_eq!(ch.version(), 0);
}

#[test]
fn bearer_header_value() {
    assert_eq!(meater::poller::bearer("abc123"), "Bearer abc123");
    assert_eq!(meater::poller::bearer(""), "Bearer ");
}
