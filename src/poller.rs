//! The decisions of the polling loop: from its phase and what just happened
//! to its next phase, the action to perform, and what is published.
use vstd::prelude::*;

use crate::channel::UpdateChannel;
use crate::display::{display_of, DisplayState, DisplayView};
use crate::telemetry::{decode, decoded, decodes, DecodeError, MeaterResponse};

verus! {

/// Seconds between the end of one poll and the start of the next.
pub const POLL_INTERVAL_SECS: u64 = 2;

/// Where the polling loop stands.
#[derive(Clone, Copy, Debug, PartialEq, Eq, Structural)]
pub enum Phase {
    /// Not started.
    Idle,
    /// A request for telemetry is under way.
    Fetching,
    /// The last poll was published; sleeping.
    Published,
    /// The last request failed; sleeping.
    FetchFailed,
    /// The last response could not be decoded; sleeping.
    DecodeFailed,
    /// No credential at start: the loop never ran.
    Aborted,
    /// Stopped between cycles on request.
    Stopped,
}

/// What happened since the last step.
pub enum PollEvent {
    /// The loop was started, with or without a stored credential.
    Started { credential_found: bool },
    /// The request failed: no connection, a timeout or a non-success status.
    RequestFailed,
    /// A response came, read as a payload or rejected as malformed.
    Received(Result<MeaterResponse, DecodeError>),
    /// The sleep between polls is over.
    Slept,
    /// The hosting process asks the loop to stop.
    StopRequested,
}

/// What the loop is to do next.
#[derive(Clone, Copy, Debug, PartialEq, Eq, Structural)]
pub enum PollAction {
    /// Request telemetry.
    Fetch,
    /// Sleep for the poll interval.
    Sleep,
    /// Report the missing credential and never poll.
    Abort,
    /// Leave the loop.
    Stop,
    /// Nothing: the event does not apply in this phase.
    Nothing,
}

/// The value of the `Authorization` header for a session token.
pub fn bearer(token: &str) -> (r: String)
    ensures
        r@ == "Bearer "@ + token@,
{
    let mut r = String::from_str("Bearer ");
    r.append(token);
    r
}

/// Whether the loop is between cycles, where it may be stopped.
pub open spec fn between_cycles(p: Phase) -> bool {
    p == Phase::Published || p == Phase::FetchFailed || p == Phase::DecodeFailed
}

/// The next phase and the action for an event in a phase. Failures of a
/// cycle are not fatal: the loop sleeps and polls again. Only a missing
/// credential at start ends it for good.
pub open spec fn step_of(p: Phase, e: PollEvent) -> (Phase, PollAction) {
    match e {
        PollEvent::Started { credential_found } => if p == Phase::Idle {
            if credential_found {
                (Phase::Fetching, PollAction::Fetch)
            } else {
                (Phase::Aborted, PollAction::Abort)
            }
        } else {
            (p, PollAction::Nothing)
        },
        PollEvent::RequestFailed => if p == Phase::Fetching {
            (Phase::FetchFailed, PollAction::Sleep)
        } else {
            (p, PollAction::Nothing)
        },
        PollEvent::Received(r) => if p == Phase::Fetching {
            match r {
                Ok(payload) => if decodes(payload) {
                    (Phase::Published, PollAction::Sleep)
                } else {
                    (Phase::DecodeFailed, PollAction::Sleep)
                },
                Err(_) => (Phase::DecodeFailed, PollAction::Sleep),
            }
        } else {
            (p, PollAction::Nothing)
        },
        PollEvent::Slept => if between_cycles(p) {
            (Phase::Fetching, PollAction::Fetch)
        } else {
            (p, PollAction::Nothing)
        },
        PollEvent::StopRequested => if p == Phase::Idle || between_cycles(p) {
            (Phase::Stopped, PollAction::Stop)
        } else {
            (p, PollAction::Nothing)
        },
    }
}

/// What a step publishes: the display of a payload that decodes, received
/// while fetching; nothing otherwise.
pub open spec fn published_by(p: Phase, e: PollEvent) -> Option<DisplayView> {
    match e {
        PollEvent::Received(Ok(payload)) => if p == Phase::Fetching && decodes(payload) {
            Some(display_of(decoded(payload)))
        } else {
            None
        },
        _ => None,
    }
}

/// The channel's history after a step that publishes `d`, if anything.
pub open spec fn after_publish(h: Seq<DisplayView>, d: Option<DisplayView>) -> Seq<DisplayView> {
    match d {
        Some(v) => h.push(v),
        None => h,
    }
}

/// The polling loop's state.
pub struct Poller {
    pub phase: Phase,
}

/// The phase and channel history after the events `es`, taken in order.
pub open spec fn run_events(p: Phase, h: Seq<DisplayView>, es: Seq<PollEvent>) -> (
    Phase,
    Seq<DisplayView>,
)
    decreases es.len(),
{
    if es.len() == 0 {
        (p, h)
    } else {
        run_events(
            step_of(p, es[0]).0,
            after_publish(h, published_by(p, es[0])),
            es.subrange(1, es.len() as int),
        )
    }
}

/// Failed cycles leave the display alone: from a fetch, three failed
/// requests, each followed by its sleep, bring the loop back to fetching with
/// nothing published; a payload that decodes then publishes exactly once.
pub proof fn lemma_failures_then_success(h: Seq<DisplayView>, payload: MeaterResponse)
    requires
        decodes(payload),
    ensures
        run_events(
            Phase::Fetching,
            h,
            seq![
                PollEvent::RequestFailed,
                PollEvent::Slept,
                PollEvent::RequestFailed,
                PollEvent::Slept,
                PollEvent::RequestFailed,
                PollEvent::Slept,
            ],
        ) == (Phase::Fetching, h),
        run_events(
            Phase::Fetching,
            h,
            seq![
                PollEvent::RequestFailed,
                PollEvent::Slept,
                PollEvent::RequestFailed,
                PollEvent::Slept,
                PollEvent::RequestFailed,
                PollEvent::Slept,
                PollEvent::Received(Ok(payload)),
            ],
        ) == (Phase::Published, h.push(display_of(decoded(payload)))),
{
    let f = PollEvent::RequestFailed;
    let s = PollEvent::Slept;
    let ok = PollEvent::Received(Ok(payload));
    let tail1: Seq<PollEvent> = seq![ok];
    let tail0: Seq<PollEvent> = Seq::empty();
    assert(seq![f, s, f, s, f, s].subrange(1, 6) =~= seq![s, f, s, f, s]);
    assert(seq![s, f, s, f, s].subrange(1, 5) =~= seq![f, s, f, s]);
    assert(seq![f, s, f, s].subrange(1, 4) =~= seq![s, f, s]);
    assert(seq![s, f, s].subrange(1, 3) =~= seq![f, s]);
    assert(seq![f, s].subrange(1, 2) =~= seq![s]);
    assert(seq![s].subrange(1, 1) =~= tail0);
    assert(seq![f, s, f, s, f, s, ok].subrange(1, 7) =~= seq![s, f, s, f, s, ok]);
    assert(seq![s, f, s, f, s, ok].subrange(1, 6) =~= seq![f, s, f, s, ok]);
    assert(seq![f, s, f, s, ok].subrange(1, 5) =~= seq![s, f, s, ok]);
    assert(seq![s, f, s, ok].subrange(1, 4) =~= seq![f, s, ok]);
    assert(seq![f, s, ok].subrange(1, 3) =~= seq![s, ok]);
    assert(seq![s, ok].subrange(1, 2) =~= tail1);
    assert(tail1.subrange(1, 1) =~= tail0);
    reveal_with_fuel(run_events, 8);
}

impl Poller {
    /// A poller that has not started.
    pub fn new() -> (r: Poller)
        ensures
            r.phase == Phase::Idle,
    {
        Poller { phase: Phase::Idle }
    }

    /// Takes one event: moves to the next phase, publishes a fresh display
    /// state when a payload decodes, and says what to do next.
    pub fn step(&mut self, event: PollEvent, channel: &mut UpdateChannel) -> (r: PollAction)
        requires
            old(channel)@.len() < u64::MAX,
        ensures
            final(self).phase == step_of(old(self).phase, event).0,
            r == step_of(old(self).phase, event).1,
            final(channel)@ == after_publish(old(channel)@, published_by(old(self).phase, event)),
    {
        let phase = self.phase;
        match event {
            PollEvent::Started { credential_found } => {
                if phase != Phase::Idle {
                    return PollAction::Nothing;
                }
                if credential_found {
                    self.phase = Phase::Fetching;
                    PollAction::Fetch
                } else {
                    self.phase = Phase::Aborted;
                    PollAction::Abort
                }
            },
            PollEvent::RequestFailed => {
                if phase != Phase::Fetching {
                    return PollAction::Nothing;
                }
                self.phase = Phase::FetchFailed;
                PollAction::Sleep
            },
            PollEvent::Received(result) => {
                if phase != Phase::Fetching {
                    return PollAction::Nothing;
                }
                match result {
                    Ok(payload) => match decode(&payload) {
                        Ok(snapshot) => {
                            channel.publish(DisplayState::from_snapshot(&snapshot));
                            self.phase = Phase::Published;
                        },
                        Err(_) => {
                            self.phase = Phase::DecodeFailed;
                        },
                    },
                    Err(_) => {
                        self.phase = Phase::DecodeFailed;
                    },
                }
                PollAction::Sleep
            },
            PollEvent::Slept => {
                if phase == Phase::Published || phase == Phase::FetchFailed || phase
                    == Phase::DecodeFailed {
                    self.phase = Phase::Fetching;
                    PollAction::Fetch
                } else {
                    PollAction::Nothing
                }
            },
            PollEvent::StopRequested => {
                if phase == Phase::Idle || phase == Phase::Published || phase == Phase::FetchFailed
                    || phase == Phase::DecodeFailed {
                    self.phase = Phase::Stopped;
                    PollAction::Stop
                } else {
                    PollAction::Nothing
                }
            },
        }
    }
}

} // verus!
