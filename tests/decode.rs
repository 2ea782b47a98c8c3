use meater::display::DisplayState;
use meater::telemetry::{
    decode, malformed, Cook, CookState, CookTemperature, DecodeError, Device, MeaterData,
    MeaterResponse, Snapshot, Temperature, Time,
};

fn payload(devices: Vec<Device>) -> MeaterResponse {
    MeaterResponse {
        status: "OK".to_string(),
        status_code: 200,
        data: MeaterData { devices },
    }
}

fn idle_device(id: &str, internal: i32, ambient: i32) -> Device {
    Device {
        id: id.to_string(),
        temperature: Temperature { internal, ambient },
        cook: None,
        updated_at: None,
    }
}

fn cooking_device() -> Device {
    Device {
        id: "a".to_string(),
        temperature: Temperature { internal: 4550, ambient: 11000 },
        cook: Some(Cook {
            id: "c".to_string(),
            name: "Brisket".to_string(),
            state: "Started".to_string(),
            temperature: CookTemperature { target: 9000, peak: 4600 },
            time: Time { elapsed: 3661, remaining: -1 },
        }),
        updated_at: Some(1700000000),
    }
}

#[test]
fn empty_device_list_is_an_error() {
    assert_eq!(decode(&payload(vec![])), Err(DecodeError::EmptyDeviceList));
}

#[test]
fn first_device_is_decoded() {
    let p = payload(vec![idle_device("a", 2000, 2500), idle_device("b", 9900, 9900)]);
    assert_eq!(
        decode(&p),
        Ok(Snapshot { internal_temp_c: 2000, ambient_temp_c: 2500, cook: None })
    );
}

#[test]
fn cook_block_is_carried_over() {
    let s = decode(&payload(vec![cooking_device()])).unwrap();
    assert_eq!(
        s,
        Snapshot {
            internal_temp_c: 4550,
            ambient_temp_c: 11000,
            cook: Some(CookState {
                name: "Brisket".to_string(),
                state: "Started".to_string(),
                target_temp_c: 9000,
                peak_temp_c: 4600,
                elapsed_s: 3661,
                remaining_s: -1,
            }),
        }
    );
}

#[test]
fn null_cook_gives_idle_display() {
    let s = decode(&payload(vec![idle_device("a", 2000, 2500)])).unwrap();
    assert!(s.cook.is_none());
    let d = DisplayState::from_snapshot(&s);
    assert_eq!(d.target_temp_f, 0);
    assert_eq!(d.time_elapsed, "00:00:00");
    assert_eq!(d.time_remaining, "00:00:00");
    assert_eq!(d.cook_info, "");
    assert_eq!(d.internal_temp_f, 68000);
    assert_eq!(d.ambient_temp_f, 77000);
    assert_eq!(d.internal_temp_color, 6);
}

#[test]
fn cooking_display() {
    let s = decode(&payload(vec![cooking_device()])).unwrap();
    let d = DisplayState::from_snapshot(&s);
    assert_eq!(
        d,
        DisplayState {
            internal_temp_f: 113900,
            ambient_temp_f: 230000,
            target_temp_f: 194000,
            time_elapsed: "01:01:01".to_string(),
            time_remaining: "Estimating...".to_string(),
            cook_info: "Brisket: Started".to_string(),
            // 113.9 / 194 is 58.7 percent
            internal_temp_color: 1,
        }
    );
}

#[test]
fn decoding_twice_gives_equal_snapshots() {
    let p = payload(vec![cooking_device(), idle_device("b", 1, 2)]);
    assert_eq!(decode(&p), decode(&p));
    let empty = payload(vec![]);
    assert_eq!(decode(&empty), decode(&empty));
}

#[test]
fn initial_display_is_zero() {
    let d = DisplayState::initial();
    assert_eq!(
        d,
        DisplayState {
            internal_temp_f: 0,
            ambient_temp_f: 0,
            target_temp_f: 0,
            time_elapsed: "00:00:00".to_string(),
            time_remaining: "00:00:00".to_string(),
            cook_info: String::new(),
            internal_temp_color: 0,
        }
    );
    assert_eq!(DisplayState::default(), d);
}

#[test]
fn malformed_keeps_an_excerpt() {
    assert_eq!(malformed("{\"status\""), DecodeError::Malformed("{\"status\"".to_string()));
    let long: String = "é".repeat(300);
    match malformed(&long) {
        DecodeError::Malformed(e) => {
            assert_eq!(e.chars().count(), 120);
            assert_eq!(e, "é".repeat(120));
        }
        other => panic!("unexpected {other:?}"),
    }
}
