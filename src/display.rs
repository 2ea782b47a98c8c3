//! The display state: the projection of a snapshot onto what the terminal
//! shows.
use vstd::prelude::*;

use crate::color::{calculate_internal_temp_color, temp_color};
use crate::format::{c_to_f, display_time, duration_text, fahrenheit_of, MilliFahrenheit};
use crate::telemetry::{decoded, decodes, MeaterResponse, Snapshot, SnapshotView};

verus! {

/// What the render layer shows. Each successful poll replaces it as a whole.
#[derive(Clone, Debug, PartialEq, Eq)]
pub struct DisplayState {
    pub internal_temp_f: MilliFahrenheit,
    pub ambient_temp_f: MilliFahrenheit,
    pub target_temp_f: MilliFahrenheit,
    pub time_elapsed: String,
    pub time_remaining: String,
    pub cook_info: String,
    pub internal_temp_color: u8,
}

/// Mathematical model of a display state.
pub struct DisplayView {
    pub internal_temp_f: int,
    pub ambient_temp_f: int,
    pub target_temp_f: int,
    pub time_elapsed: Seq<char>,
    pub time_remaining: Seq<char>,
    pub cook_info: Seq<char>,
    pub internal_temp_color: u8,
}

impl View for DisplayState {
    type V = DisplayView;

    open spec fn view(&self) -> DisplayView {
        DisplayView {
            internal_temp_f: self.internal_temp_f as int,
            ambient_temp_f: self.ambient_temp_f as int,
            target_temp_f: self.target_temp_f as int,
            time_elapsed: self.time_elapsed@,
            time_remaining: self.time_remaining@,
            cook_info: self.cook_info@,
            internal_temp_color: self.internal_temp_color,
        }
    }
}

/// The display before any poll has succeeded: zero temperatures, zero
/// durations, no cook information.
pub open spec fn initial_display() -> DisplayView {
    DisplayView {
        internal_temp_f: 0,
        ambient_temp_f: 0,
        target_temp_f: 0,
        time_elapsed: "00:00:00"@,
        time_remaining: "00:00:00"@,
        cook_info: Seq::empty(),
        internal_temp_color: 0,
    }
}

/// The display derived from a snapshot. Without a cook the target is zero,
/// both durations are zero and there is no cook information; with one, the
/// cook information reads `name: state`.
pub open spec fn display_of(s: SnapshotView) -> DisplayView {
    match s.cook {
        Some(c) => DisplayView {
            internal_temp_f: fahrenheit_of(s.internal_temp_c),
            ambient_temp_f: fahrenheit_of(s.ambient_temp_c),
            target_temp_f: fahrenheit_of(c.target_temp_c),
            time_elapsed: duration_text(c.elapsed_s),
            time_remaining: duration_text(c.remaining_s),
            cook_info: c.name + seq![':', ' '] + c.state,
            internal_temp_color: temp_color(s),
        },
        None => DisplayView {
            internal_temp_f: fahrenheit_of(s.internal_temp_c),
            ambient_temp_f: fahrenheit_of(s.ambient_temp_c),
            target_temp_f: 0,
            time_elapsed: "00:00:00"@,
            time_remaining: "00:00:00"@,
            cook_info: Seq::empty(),
            internal_temp_color: temp_color(s),
        },
    }
}

/// A device without a cook decodes to a snapshot without one, whose display
/// has a zero target, zero durations and no cook information.
pub proof fn lemma_idle_device_display(p: MeaterResponse)
    requires
        decodes(p),
        p.data.devices@[0].cook is None,
    ensures
        decoded(p).cook is None,
        display_of(decoded(p)).target_temp_f == 0,
        display_of(decoded(p)).time_elapsed == "00:00:00"@,
        display_of(decoded(p)).time_remaining == "00:00:00"@,
        display_of(decoded(p)).cook_info == Seq::<char>::empty(),
{
}

impl Default for DisplayState {
    fn default() -> (r: DisplayState)
        ensures
            r@ == initial_display(),
    {
        DisplayState {
            internal_temp_f: 0,
            ambient_temp_f: 0,
            target_temp_f: 0,
            time_elapsed: String::from_str("00:00:00"),
            time_remaining: String::from_str("00:00:00"),
            cook_info: String::new(),
            internal_temp_color: 0,
        }
    }
}

impl DisplayState {
    /// The display state before any poll has succeeded.
    pub fn initial() -> (r: DisplayState)
        ensures
            r@ == initial_display(),
    {
        DisplayState::default()
    }

    /// Derives the display state of a snapshot.
    pub fn from_snapshot(s: &Snapshot) -> (r: DisplayState)
        ensures
            r@ == display_of(s@),
    {
        let color = calculate_internal_temp_color(s);
        match &s.cook {
            Some(cook) => {
                let mut info = cook.name.clone();
                proof {
                    reveal_strlit(": ");
                }
                info.append(": ");
                info.append(cook.state.as_str());
                assert(info@ =~= cook.name@ + seq![':', ' '] + cook.state@);
                DisplayState {
                    internal_temp_f: c_to_f(s.internal_temp_c),
                    ambient_temp_f: c_to_f(s.ambient_temp_c),
                    target_temp_f: c_to_f(cook.target_temp_c),
                    time_elapsed: display_time(cook.elapsed_s),
                    time_remaining: display_time(cook.remaining_s),
                    cook_info: info,
                    internal_temp_color: color,
                }
            },
            None => DisplayState {
                internal_temp_f: c_to_f(s.internal_temp_c),
                ambient_temp_f: c_to_f(s.ambient_temp_c),
                target_temp_f: 0,
                time_elapsed: String::from_str("00:00:00"),
                time_remaining: String::from_str("00:00:00"),
                cook_info: String::new(),
                internal_temp_color: color,
            },
        }
    }
}

} // verus!
