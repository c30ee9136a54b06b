//! Log relay: forwards the lines of a container's log stream to a client,
//! one frame in flight at a time, and gives the stream up as soon as the
//! client stops taking frames.
use vstd::prelude::*;
use crate::text::{lit, lossy_text, lossy_text_of};

verus! {

/// Where a log session stands.
#[derive(PartialEq, Eq, Structural, Clone, Copy, Debug)]
pub enum RelayPhase {
    /// Waiting for the first item of the log stream, which tells whether it
    /// could be opened.
    Opening,
    /// Waiting for the next item of the log stream.
    Polling,
    /// A frame has been handed to the client channel; waiting for the outcome.
    Sending,
    /// The session is over and the log stream has been released.
    Closed,
}

/// What happened since the relay's last action.
#[derive(Debug)]
pub enum RelayEvent {
    /// The log stream yielded a line.
    Line(String),
    /// The log stream yielded an error, with its message.
    SourceFailed(String),
    /// The log stream has no more items.
    SourceEnded,
    /// The client channel accepted the frame in flight.
    Delivered,
    /// The client channel refused the frame in flight: it is gone.
    SendFailed,
}

/// What the relay asks its driver to do next.
#[derive(Debug)]
pub enum RelayAction {
    /// Send this text frame to the client.
    Send(String),
    /// Wait for the next item of the log stream.
    Poll,
    /// The log stream could not be opened: send this error frame, then end
    /// the session.
    Report(String),
    /// Drop the log stream and end the session.
    Release,
}

/// A log session.
#[derive(Debug)]
pub struct LogRelay {
    pub phase: RelayPhase,
}

/// One step of a log session: the next phase and the action to take. A
/// failure of the first read is reported with its message.
pub open spec fn relay_next(phase: RelayPhase, ev: RelayEvent) -> (RelayPhase, RelayAction) {
    match (phase, ev) {
        (RelayPhase::Opening, RelayEvent::Line(t)) => (RelayPhase::Sending, RelayAction::Send(t)),
        (RelayPhase::Opening, RelayEvent::SourceFailed(m)) => (RelayPhase::Closed, RelayAction::Report(m)),
        (RelayPhase::Polling, RelayEvent::Line(t)) => (RelayPhase::Sending, RelayAction::Send(t)),
        (RelayPhase::Sending, RelayEvent::Delivered) => (RelayPhase::Polling, RelayAction::Poll),
        _ => (RelayPhase::Closed, RelayAction::Release),
    }
}

/// The actions of a session that starts in `phase` and meets `evs` in turn.
pub open spec fn relay_actions(phase: RelayPhase, evs: Seq<RelayEvent>) -> Seq<RelayAction>
    decreases evs.len(),
{
    if evs.len() == 0 {
        Seq::empty()
    } else {
        let (next, act) = relay_next(phase, evs[0]);
        seq![act] + relay_actions(next, evs.drop_first())
    }
}

/// The phase that a session starting in `phase` reaches after `evs`.
pub open spec fn relay_phase_after(phase: RelayPhase, evs: Seq<RelayEvent>) -> RelayPhase
    decreases evs.len(),
{
    if evs.len() == 0 {
        phase
    } else {
        relay_phase_after(relay_next(phase, evs[0]).0, evs.drop_first())
    }
}

/// The frames that a list of actions sends, in order.
pub open spec fn frames_sent(acts: Seq<RelayAction>) -> Seq<Seq<char>>
    decreases acts.len(),
{
    if acts.len() == 0 {
        Seq::empty()
    } else {
        let rest = frames_sent(acts.drop_first());
        match acts[0] {
            RelayAction::Send(t) => seq![t@] + rest,
            _ => rest,
        }
    }
}

/// The events of a client that takes every frame of a stream of `lines`.
pub open spec fn delivered_lines(lines: Seq<String>) -> Seq<RelayEvent>
    decreases lines.len(),
{
    if lines.len() == 0 {
        Seq::empty()
    } else {
        seq![RelayEvent::Line(lines[0]), RelayEvent::Delivered] + delivered_lines(lines.drop_first())
    }
}

/// The text of the single frame sent when the log stream cannot be opened.
pub open spec fn open_failure_frame(message: Seq<char>) -> Seq<char> {
    "Error: "@ + message
}

impl RelayEvent {
    /// The event for one chunk of the log stream: its bytes read as text,
    /// with invalid UTF-8 replaced.
    pub fn from_chunk(chunk: &[u8]) -> (r: RelayEvent)
        ensures
            r matches RelayEvent::Line(t) && t@ == lossy_text_of(chunk@),
    {
        RelayEvent::Line(lossy_text(chunk))
    }
}

impl LogRelay {
    /// A session whose log stream has just been asked for.
    pub fn new() -> (r: LogRelay)
        ensures
            r.phase == RelayPhase::Opening,
    {
        LogRelay { phase: RelayPhase::Opening }
    }

    /// The frame sent, before closing, when the log stream could not be
    /// opened.
    pub fn open_failure(message: &str) -> (r: String)
        ensures
            r@ == open_failure_frame(message@),
    {
        let mut r = lit("Error: ");
        r.append(message);
        r
    }

    /// Whether the session is over.
    pub fn is_closed(&self) -> (r: bool)
        ensures
            r == (self.phase == RelayPhase::Closed),
    {
        self.phase == RelayPhase::Closed
    }

    /// Takes in one event and says what to do next. A line is sent as one
    /// frame; a failed first read is reported in an error frame; anything
    /// but a line while polling, or a delivery while sending, ends the
    /// session.
    pub fn step(&mut self, ev: RelayEvent) -> (r: RelayAction)
        ensures
            final(self).phase == relay_next(old(self).phase, ev).0,
            relay_next(old(self).phase, ev).1 matches RelayAction::Report(m)
                ==> (r matches RelayAction::Report(f) && f@ == open_failure_frame(m@)),
            !(relay_next(old(self).phase, ev).1 is Report) ==> r == relay_next(old(self).phase, ev).1,
    {
        match (self.phase, ev) {
            (RelayPhase::Opening, RelayEvent::Line(t)) | (RelayPhase::Polling, RelayEvent::Line(t)) => {
                self.phase = RelayPhase::Sending;
                RelayAction::Send(t)
            },
            (RelayPhase::Opening, RelayEvent::SourceFailed(m)) => {
                self.phase = RelayPhase::Closed;
                RelayAction::Report(LogRelay::open_failure(m.as_str()))
            },
            (RelayPhase::Sending, RelayEvent::Delivered) => {
                self.phase = RelayPhase::Polling;
                RelayAction::Poll
            },
            _ => {
                self.phase = RelayPhase::Closed;
                RelayAction::Release
            },
        }
    }
}

/// Relaying a finite log stream to a client that takes every frame sends
/// each line once, in order, as one frame, and ends with the stream
/// released.
pub proof fn lemma_finite_stream_sends_each_line(lines: Seq<String>)
    ensures
        frames_sent(relay_actions(RelayPhase::Opening, delivered_lines(lines) + seq![RelayEvent::SourceEnded]))
            == lines.map_values(|l: String| l@),
        relay_phase_after(RelayPhase::Opening, delivered_lines(lines) + seq![RelayEvent::SourceEnded])
            == RelayPhase::Closed,
{
    let evs = delivered_lines(lines) + seq![RelayEvent::SourceEnded];
    lemma_polling_sends_each_line(lines);
    if lines.len() == 0 {
        assert(evs =~= seq![RelayEvent::SourceEnded]);
    } else {
        assert(evs[0] == RelayEvent::Line(lines[0]));
    }
    assert(relay_next(RelayPhase::Opening, evs[0]) == relay_next(RelayPhase::Polling, evs[0]));
    assert(relay_actions(RelayPhase::Opening, evs) == relay_actions(RelayPhase::Polling, evs));
    assert(relay_phase_after(RelayPhase::Opening, evs) == relay_phase_after(RelayPhase::Polling, evs));
}

/// The same run, from a stream that has already yielded its first item.
proof fn lemma_polling_sends_each_line(lines: Seq<String>)
    ensures
        frames_sent(relay_actions(RelayPhase::Polling, delivered_lines(lines) + seq![RelayEvent::SourceEnded]))
            == lines.map_values(|l: String| l@),
        relay_phase_after(RelayPhase::Polling, delivered_lines(lines) + seq![RelayEvent::SourceEnded])
            == RelayPhase::Closed,
    decreases lines.len(),
{
    let evs = delivered_lines(lines) + seq![RelayEvent::SourceEnded];
    if lines.len() == 0 {
        assert(evs =~= seq![RelayEvent::SourceEnded]);
        assert(relay_actions(RelayPhase::Closed, evs.drop_first()) =~= Seq::<RelayAction>::empty());
        let acts = relay_actions(RelayPhase::Polling, evs);
        assert(acts.drop_first() =~= Seq::<RelayAction>::empty());
        assert(frames_sent(acts.drop_first()) =~= Seq::<Seq<char>>::empty());
        assert(lines.map_values(|l: String| l@) =~= Seq::<Seq<char>>::empty());
        assert(relay_phase_after(RelayPhase::Closed, evs.drop_first()) == RelayPhase::Closed);
    } else {
        let rest = lines.drop_first();
        let rest_evs = delivered_lines(rest) + seq![RelayEvent::SourceEnded];
        lemma_polling_sends_each_line(rest);
        assert(evs.drop_first().drop_first() =~= rest_evs);
        assert(evs[0] == RelayEvent::Line(lines[0]));
        assert(evs.drop_first()[0] == RelayEvent::Delivered);
        let acts = relay_actions(RelayPhase::Polling, evs);
        let acts1 = relay_actions(RelayPhase::Sending, evs.drop_first());
        assert(acts.drop_first() == acts1);
        assert(acts1.drop_first() == relay_actions(RelayPhase::Polling, rest_evs));
        assert(frames_sent(acts1) == frames_sent(relay_actions(RelayPhase::Polling, rest_evs)));
        assert(relay_phase_after(RelayPhase::Polling, evs) == relay_phase_after(RelayPhase::Sending, evs.drop_first()));
        assert(relay_phase_after(RelayPhase::Sending, evs.drop_first())
            == relay_phase_after(RelayPhase::Polling, rest_evs));
        assert(lines.map_values(|l: String| l@) =~= seq![lines[0]@] + rest.map_values(|l: String| l@));
    }
}

/// Once the client channel refuses a frame, the session is closed: the
/// refusal itself releases the log stream, and whatever comes after sends
/// nothing more and keeps the session closed.
pub proof fn lemma_refused_frame_ends_relay(later: Seq<RelayEvent>)
    ensures
        relay_next(RelayPhase::Sending, RelayEvent::SendFailed) == (RelayPhase::Closed, RelayAction::Release),
        frames_sent(relay_actions(RelayPhase::Closed, later)).len() == 0,
        relay_phase_after(RelayPhase::Closed, later) == RelayPhase::Closed,
    decreases later.len(),
{
    if later.len() > 0 {
        lemma_refused_frame_ends_relay(later.drop_first());
        let acts = relay_actions(RelayPhase::Closed, later);
        assert(acts[0] == RelayAction::Release);
        assert(acts.drop_first() == relay_actions(RelayPhase::Closed, later.drop_first()));
    }
}

} // verus!
