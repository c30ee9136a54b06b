//! Telemetry session: samples host statistics, sends one frame per sample,
//! and waits a fixed interval between samples, until the client goes away.
use vstd::prelude::*;

verus! {

/// Seconds between two telemetry frames.
pub const TELEMETRY_INTERVAL_SECS: u64 = 2;

/// Where a telemetry session stands.
#[derive(PartialEq, Eq, Structural, Clone, Copy, Debug)]
pub enum TelemetryPhase {
    /// Waiting for a fresh sample.
    Sampling,
    /// A frame has been handed to the client channel.
    Sending,
    /// Waiting for the interval to pass.
    Waiting,
    /// The client is gone; the session is over.
    Closed,
}

/// What happened since the session's last action.
#[derive(Debug)]
pub enum TelemetryEvent {
    /// A fresh sample was taken and encoded as this frame.
    Sampled(String),
    /// The client channel accepted the frame.
    Delivered,
    /// The client channel refused the frame.
    SendFailed,
    /// The interval has passed.
    Elapsed,
}

/// What the session asks its driver to do next.
#[derive(Debug)]
pub enum TelemetryAction {
    /// Take a fresh sample and encode it.
    Sample,
    /// Send this frame to the client.
    Send(String),
    /// Wait this many seconds.
    Sleep(u64),
    /// End the session.
    Stop,
}

/// A telemetry session.
#[derive(Debug)]
pub struct TelemetrySession {
    pub phase: TelemetryPhase,
}

/// One step of a telemetry session: the next phase and the action to take.
pub open spec fn telemetry_next(phase: TelemetryPhase, ev: TelemetryEvent) -> (TelemetryPhase, TelemetryAction) {
    match (phase, ev) {
        (TelemetryPhase::Sampling, TelemetryEvent::Sampled(f)) => (TelemetryPhase::Sending, TelemetryAction::Send(f)),
        (TelemetryPhase::Sending, TelemetryEvent::Delivered) => (
            TelemetryPhase::Waiting,
            TelemetryAction::Sleep(TELEMETRY_INTERVAL_SECS),
        ),
        (TelemetryPhase::Waiting, TelemetryEvent::Elapsed) => (TelemetryPhase::Sampling, TelemetryAction::Sample),
        _ => (TelemetryPhase::Closed, TelemetryAction::Stop),
    }
}

/// The actions of a session that starts in `phase` and meets `evs` in turn.
pub open spec fn telemetry_actions(phase: TelemetryPhase, evs: Seq<TelemetryEvent>) -> Seq<TelemetryAction>
    decreases evs.len(),
{
    if evs.len() == 0 {
        Seq::empty()
    } else {
        let (next, act) = telemetry_next(phase, evs[0]);
        seq![act] + telemetry_actions(next, evs.drop_first())
    }
}

/// The frames that a list of actions sends, in order.
pub open spec fn telemetry_frames(acts: Seq<TelemetryAction>) -> Seq<Seq<char>>
    decreases acts.len(),
{
    if acts.len() == 0 {
        Seq::empty()
    } else {
        let rest = telemetry_frames(acts.drop_first());
        match acts[0] {
            TelemetryAction::Send(f) => seq![f@] + rest,
            _ => rest,
        }
    }
}

/// The events of a session whose sampler yields `samples` in turn and whose
/// client takes every frame.
pub open spec fn sampled_and_delivered(samples: Seq<String>) -> Seq<TelemetryEvent>
    decreases samples.len(),
{
    if samples.len() == 0 {
        Seq::empty()
    } else {
        seq![TelemetryEvent::Sampled(samples[0]), TelemetryEvent::Delivered, TelemetryEvent::Elapsed]
            + sampled_and_delivered(samples.drop_first())
    }
}

impl TelemetrySession {
    /// A session that has just started; its first action is to sample.
    pub fn new() -> (r: (TelemetrySession, TelemetryAction))
        ensures
            r.0.phase == TelemetryPhase::Sampling,
            r.1 == TelemetryAction::Sample,
    {
        (TelemetrySession { phase: TelemetryPhase::Sampling }, TelemetryAction::Sample)
    }

    /// Whether the session is over.
    pub fn is_closed(&self) -> (r: bool)
        ensures
            r == (self.phase == TelemetryPhase::Closed),
    {
        self.phase == TelemetryPhase::Closed
    }

    /// Takes in one event and says what to do next: a sample is sent as one
    /// frame, a delivered frame is followed by the interval, the interval by
    /// a new sample; anything else ends the session.
    pub fn step(&mut self, ev: TelemetryEvent) -> (r: TelemetryAction)
        ensures
            (final(self).phase, r) == telemetry_next(old(self).phase, ev),
    {
        match (self.phase, ev) {
            (TelemetryPhase::Sampling, TelemetryEvent::Sampled(f)) => {
                self.phase = TelemetryPhase::Sending;
                TelemetryAction::Send(f)
            },
            (TelemetryPhase::Sending, TelemetryEvent::Delivered) => {
                self.phase = TelemetryPhase::Waiting;
                TelemetryAction::Sleep(TELEMETRY_INTERVAL_SECS)
            },
            (TelemetryPhase::Waiting, TelemetryEvent::Elapsed) => {
                self.phase = TelemetryPhase::Sampling;
                TelemetryAction::Sample
            },
            _ => {
                self.phase = TelemetryPhase::Closed;
                TelemetryAction::Stop
            },
        }
    }
}

/// A client that takes every frame observes one frame per sample, in the
/// order in which the sampler produced them.
pub proof fn lemma_samples_reach_client_in_order(samples: Seq<String>)
    ensures
        telemetry_frames(telemetry_actions(TelemetryPhase::Sampling, sampled_and_delivered(samples)))
            == samples.map_values(|f: String| f@),
    decreases samples.len(),
{
    let evs = sampled_and_delivered(samples);
    if samples.len() == 0 {
        assert(samples.map_values(|f: String| f@) =~= Seq::<Seq<char>>::empty());
    } else {
        let rest = samples.drop_first();
        lemma_samples_reach_client_in_order(rest);
        let e1 = evs.drop_first();
        let e2 = e1.drop_first();
        assert(e2.drop_first() =~= sampled_and_delivered(rest));
        assert(evs[0] == TelemetryEvent::Sampled(samples[0]));
        assert(e1[0] == TelemetryEvent::Delivered);
        assert(e2[0] == TelemetryEvent::Elapsed);
        let a0 = telemetry_actions(TelemetryPhase::Sampling, evs);
        let a1 = telemetry_actions(TelemetryPhase::Sending, e1);
        let a2 = telemetry_actions(TelemetryPhase::Waiting, e2);
        assert(a0.drop_first() == a1);
        assert(a1.drop_first() == a2);
        assert(a2.drop_first() == telemetry_actions(TelemetryPhase::Sampling, e2.drop_first()));
        assert(telemetry_frames(a1) == telemetry_frames(a2));
        assert(samples.map_values(|f: String| f@) =~= seq![samples[0]@] + rest.map_values(|f: String| f@));
    }
}

} // verus!
