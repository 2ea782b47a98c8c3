//! The telemetry payload, its decoding into a snapshot, and the colour band
//! of the internal temperature.
use vstd::prelude::*;

use crate::format::CentiCelsius;

verus! {

/// Probe temperatures of one device.
#[derive(Clone, Debug, PartialEq, Eq)]
pub struct Temperature {
    pub internal: CentiCelsius,
    pub ambient: CentiCelsius,
}

/// Target and peak temperatures of a cook.
#[derive(Clone, Debug, PartialEq, Eq)]
pub struct CookTemperature {
    pub target: CentiCelsius,
    pub peak: CentiCelsius,
}

/// Elapsed and remaining seconds of a cook; a remaining time of `-1` means
/// that it cannot be estimated yet.
#[derive(Clone, Debug, PartialEq, Eq)]
pub struct Time {
    pub elapsed: i32,
    pub remaining: i32,
}

/// A cook block as the payload carries it.
#[derive(Clone, Debug, PartialEq, Eq)]
pub struct Cook {
    pub id: String,
    pub name: String,
    pub state: String,
    pub temperature: CookTemperature,
    pub time: Time,
}

/// A device entry of the payload.
#[derive(Clone, Debug, PartialEq, Eq)]
pub struct Device {
    pub id: String,
    pub temperature: Temperature,
    pub cook: Option<Cook>,
    pub updated_at: Option<u64>,
}

/// The data part of the payload.
#[derive(Clone, Debug, PartialEq, Eq)]
pub struct MeaterData {
    pub devices: Vec<Device>,
}

/// A telemetry payload, as read from the device endpoint.
#[derive(Clone, Debug, PartialEq, Eq)]
pub struct MeaterResponse {
    pub status: String,
    pub status_code: u16,
    pub data: MeaterData,
}

/// An active cook session of a snapshot.
#[derive(Clone, Debug, PartialEq, Eq)]
pub struct CookState {
    pub name: String,
    pub state: String,
    pub target_temp_c: CentiCelsius,
    pub peak_temp_c: CentiCelsius,
    pub elapsed_s: i32,
    pub remaining_s: i32,
}

/// The decoded reading of one device at one poll; `cook` is absent when no
/// cook session is active.
#[derive(Clone, Debug, PartialEq, Eq)]
pub struct Snapshot {
    pub internal_temp_c: CentiCelsius,
    pub ambient_temp_c: CentiCelsius,
    pub cook: Option<CookState>,
}

/// Why a payload could not be decoded.
#[derive(Clone, Debug, PartialEq, Eq)]
pub enum DecodeError {
    /// The payload lists no device.
    EmptyDeviceList,
    /// The payload is not of the expected shape; holds the start of it.
    Malformed(String),
}

/// Mathematical model of a cook session.
pub struct CookView {
    pub name: Seq<char>,
    pub state: Seq<char>,
    pub target_temp_c: int,
    pub peak_temp_c: int,
    pub elapsed_s: int,
    pub remaining_s: int,
}

/// Mathematical model of a snapshot.
pub struct SnapshotView {
    pub internal_temp_c: int,
    pub ambient_temp_c: int,
    pub cook: Option<CookView>,
}

impl View for CookState {
    type V = CookView;

    open spec fn view(&self) -> CookView {
        CookView {
            name: self.name@,
            state: self.state@,
            target_temp_c: self.target_temp_c as int,
            peak_temp_c: self.peak_temp_c as int,
            elapsed_s: self.elapsed_s as int,
            remaining_s: self.remaining_s as int,
        }
    }
}

impl View for Snapshot {
    type V = SnapshotView;

    open spec fn view(&self) -> SnapshotView {
        SnapshotView {
            internal_temp_c: self.internal_temp_c as int,
            ambient_temp_c: self.ambient_temp_c as int,
            cook: match self.cook {
                Some(c) => Some(c@),
                None => None,
            },
        }
    }
}

/// The cook session that a cook block of the payload describes.
pub open spec fn cook_view_of(c: Cook) -> CookView {
    CookView {
        name: c.name@,
        state: c.state@,
        target_temp_c: c.temperature.target as int,
        peak_temp_c: c.temperature.peak as int,
        elapsed_s: c.time.elapsed as int,
        remaining_s: c.time.remaining as int,
    }
}

/// The snapshot that a device entry describes.
pub open spec fn snapshot_of(d: Device) -> SnapshotView {
    SnapshotView {
        internal_temp_c: d.temperature.internal as int,
        ambient_temp_c: d.temperature.ambient as int,
        cook: match d.cook {
            Some(c) => Some(cook_view_of(c)),
            None => None,
        },
    }
}

/// Decoding succeeds on a payload that lists a device.
pub open spec fn decodes(p: MeaterResponse) -> bool {
    p.data.devices@.len() > 0
}

/// What decoding a payload that lists a device gives: its first device.
pub open spec fn decoded(p: MeaterResponse) -> SnapshotView
    recommends
        decodes(p),
{
    snapshot_of(p.data.devices@[0])
}

fn cook_state_of(c: &Cook) -> (r: CookState)
    ensures
        r@ == cook_view_of(*c),
{
    CookState {
        name: c.name.clone(),
        state: c.state.clone(),
        target_temp_c: c.temperature.target,
        peak_temp_c: c.temperature.peak,
        elapsed_s: c.time.elapsed,
        remaining_s: c.time.remaining,
    }
}

/// Reads the first device of a payload into a snapshot. A payload without
/// devices is an error, never a snapshot of zeros.
pub fn decode(payload: &MeaterResponse) -> (r: Result<Snapshot, DecodeError>)
    ensures
        decodes(*payload) ==> (r matches Ok(s) && s@ == decoded(*payload)),
        !decodes(*payload) ==> r == Err::<Snapshot, DecodeError>(DecodeError::EmptyDeviceList),
{
    if payload.data.devices.len() == 0 {
        return Err(DecodeError::EmptyDeviceList);
    }
    let device = &payload.data.devices[0];
    let cook = match &device.cook {
        Some(c) => Some(cook_state_of(c)),
        None => None,
    };
    Ok(Snapshot {
        internal_temp_c: device.temperature.internal,
        ambient_temp_c: device.temperature.ambient,
        cook,
    })
}

/// Decoding is a function of the payload: equal payloads decode to equal
/// snapshots, or fail alike.
pub proof fn lemma_decode_deterministic(p1: MeaterResponse, p2: MeaterResponse)
    requires
        p1 == p2,
    ensures
        decodes(p1) == decodes(p2),
        decodes(p1) ==> decoded(p1) == decoded(p2),
{
}

/// How many characters of a rejected payload a decode error keeps.
pub const EXCERPT_CHARS: usize = 120;

/// The error for a payload of the wrong shape; it keeps the first
/// `EXCERPT_CHARS` characters of the payload.
pub fn malformed(raw: &str) -> (r: DecodeError)
    ensures
        r matches DecodeError::Malformed(e) && e@ == raw@.take(
            if raw@.len() < EXCERPT_CHARS { raw@.len() as int } else { EXCERPT_CHARS as int },
        ),
{
    let len = raw.unicode_len();
    let end = if len < EXCERPT_CHARS {
        len
    } else {
        EXCERPT_CHARS
    };
    let excerpt = raw.substring_char(0, end);
    assert(excerpt@ =~= raw@.take(end as int));
    DecodeError::Malformed(String::from_str(excerpt))
}

} // verus!
