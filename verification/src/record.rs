//! Running a recording from start to a finished file.
//!
//! A recording is driven in turns: it asks for one thing to be done with
//! the pipeline, is told what came of it, and asks for the next.
use vstd::prelude::*;
use crate::cli::Span;

verus! {

/// The longest wait, in nanoseconds, before the stop flag and the clock are
/// looked at again.
pub const POLL_SLICE_NANOS: u64 = 200_000_000;

/// How many seconds the end of stream has to get through the pipeline.
pub const EOS_TIMEOUT_SECS: u64 = 10;

/// A message from the pipeline that matters to a recording.
#[derive(Debug, Clone, Copy, PartialEq, Eq, Structural)]
pub enum BusMessage {
    /// Something went wrong in the pipeline.
    Error,
    /// The end of stream has reached every sink.
    Eos,
}

/// What is to be done next.
#[derive(Debug, Clone, Copy, PartialEq, Eq, Structural)]
pub enum Command {
    /// Set the pipeline playing.
    SetPlaying,
    /// Get hold of the pipeline's bus, and of the time.
    GetBus,
    /// Look at the stop flag and at the clock.
    Check,
    /// Wait this many nanoseconds at most for a message.
    Poll(u64),
    /// Send an end of stream, and wait this many seconds at most for it to
    /// arrive.
    SendEos(u64),
    /// Take the pipeline down. With `true`, first warn that the file may
    /// not be complete.
    SetNull(bool),
    /// Take the pipeline down as well as that works.
    ForceNull,
    /// Nothing more; the recording is over.
    Finish,
}

/// What came of a command.
#[derive(Debug, Clone, Copy, PartialEq, Eq, Structural)]
pub enum Event {
    /// Whether the pipeline could be set playing.
    Started(bool),
    /// Whether the pipeline has a bus.
    Bus(bool),
    /// The stop flag, and the nanoseconds since the bus was got hold of.
    Clock(bool, u128),
    /// The message that was waited for, if one came in time.
    Polled(Option<BusMessage>),
    /// The message that came after the end of stream was sent, if any.
    EosWaited(Option<BusMessage>),
    /// Whether the pipeline could be taken down.
    Nulled(bool),
}

/// How a recording ended.
#[derive(Debug, Clone, Copy, PartialEq, Eq, Structural)]
pub enum Outcome {
    /// The file has been finished.
    Finished,
    /// The pipeline could not be set playing.
    StartFailed,
    /// The pipeline has no bus.
    NoBus,
    /// The pipeline reported an error while recording.
    PipelineError,
    /// The pipeline reported an error while the file was being finished.
    FinalizeError,
    /// The pipeline could not be taken down.
    NullFailed,
}

/// Where a recording stands.
#[derive(Debug, Clone, Copy, PartialEq, Eq, Structural)]
pub enum Phase {
    /// The pipeline is being set playing.
    Starting,
    /// The bus is being got hold of.
    FindingBus,
    /// The stop flag and the clock are being looked at.
    Checking,
    /// Recording, and waiting for a message.
    Polling,
    /// The end of stream has been sent.
    Finalizing,
    /// The pipeline is being taken down after the end of stream.
    Stopping,
    /// The pipeline is being taken down after an error.
    Failing(Outcome),
    /// Over.
    Done(Outcome),
}

/// Whether `event` is an answer to what a recording in `phase` asked for.
pub open spec fn awaits(phase: Phase, event: Event) -> bool {
    match (phase, event) {
        (Phase::Starting, Event::Started(_)) => true,
        (Phase::FindingBus, Event::Bus(_)) => true,
        (Phase::Checking, Event::Clock(_, _)) => true,
        (Phase::Polling, Event::Polled(_)) => true,
        (Phase::Finalizing, Event::EosWaited(_)) => true,
        (Phase::Stopping, Event::Nulled(_)) => true,
        (Phase::Failing(_), Event::Nulled(_)) => true,
        _ => false,
    }
}

/// The nanoseconds to wait for a message: what is left of the recording, or
/// the longest wait there is.
pub open spec fn slice(duration: nat, elapsed: nat) -> int {
    if duration - elapsed < POLL_SLICE_NANOS {
        duration - elapsed
    } else {
        POLL_SLICE_NANOS as int
    }
}

/// What a recording does when it is told what came of its last command.
pub open spec fn next(duration: nat, phase: Phase, event: Event) -> (Phase, Command) {
    match event {
        Event::Started(true) => (Phase::FindingBus, Command::GetBus),
        Event::Started(false) => (Phase::Done(Outcome::StartFailed), Command::Finish),
        Event::Bus(true) => (Phase::Checking, Command::Check),
        Event::Bus(false) => (Phase::Done(Outcome::NoBus), Command::Finish),
        Event::Clock(stop, elapsed) => if stop || elapsed >= duration {
            (Phase::Finalizing, Command::SendEos(EOS_TIMEOUT_SECS))
        } else {
            (Phase::Polling, Command::Poll(slice(duration, elapsed as nat) as u64))
        },
        Event::Polled(None) => (Phase::Checking, Command::Check),
        Event::Polled(Some(BusMessage::Eos)) => (Phase::Stopping, Command::SetNull(false)),
        Event::Polled(Some(BusMessage::Error)) => (
            Phase::Failing(Outcome::PipelineError),
            Command::ForceNull,
        ),
        Event::EosWaited(None) => (Phase::Stopping, Command::SetNull(true)),
        Event::EosWaited(Some(BusMessage::Eos)) => (Phase::Stopping, Command::SetNull(false)),
        Event::EosWaited(Some(BusMessage::Error)) => (
            Phase::Failing(Outcome::FinalizeError),
            Command::ForceNull,
        ),
        Event::Nulled(ok) => match phase {
            Phase::Failing(outcome) => (Phase::Done(outcome), Command::Finish),
            _ => if ok {
                (Phase::Done(Outcome::Finished), Command::Finish)
            } else {
                (Phase::Done(Outcome::NullFailed), Command::Finish)
            },
        },
    }
}

/// A recording in progress.
#[derive(Debug, Clone, Copy, PartialEq, Eq, Structural)]
pub struct Recording {
    duration: u128,
    phase: Phase,
}

impl Recording {
    /// The nanoseconds to record for.
    pub closed spec fn length(self) -> nat {
        self.duration as nat
    }

    /// Where the recording stands.
    pub closed spec fn at(self) -> Phase {
        self.phase
    }

    /// Where the recording stands.
    pub fn phase(&self) -> (phase: Phase)
        ensures
            phase == self.at(),
    {
        self.phase
    }

    /// Takes note of what came of the last command, and says what to do
    /// next.
    pub fn step(&mut self, event: Event) -> (command: Command)
        requires
            awaits(old(self).at(), event),
        ensures
            final(self).length() == old(self).length(),
            (final(self).at(), command) == next(old(self).length(), old(self).at(), event),
    {
        let (phase, command) = match event {
            Event::Started(true) => (Phase::FindingBus, Command::GetBus),
            Event::Started(false) => (Phase::Done(Outcome::StartFailed), Command::Finish),
            Event::Bus(true) => (Phase::Checking, Command::Check),
            Event::Bus(false) => (Phase::Done(Outcome::NoBus), Command::Finish),
            Event::Clock(stop, elapsed) => {
                if stop || elapsed >= self.duration {
                    (Phase::Finalizing, Command::SendEos(EOS_TIMEOUT_SECS))
                } else {
                    let left: u128 = self.duration - elapsed;
                    let wait: u64 = if left < POLL_SLICE_NANOS as u128 {
                        left as u64
                    } else {
                        POLL_SLICE_NANOS
                    };
                    (Phase::Polling, Command::Poll(wait))
                }
            },
            Event::Polled(None) => (Phase::Checking, Command::Check),
            // The end of stream came by itself: everything is flushed, and
            // no second one would ever arrive.
            Event::Polled(Some(BusMessage::Eos)) => (Phase::Stopping, Command::SetNull(false)),
            Event::Polled(Some(BusMessage::Error)) => (
                Phase::Failing(Outcome::PipelineError),
                Command::ForceNull,
            ),
            Event::EosWaited(None) => (Phase::Stopping, Command::SetNull(true)),
            Event::EosWaited(Some(BusMessage::Eos)) => (Phase::Stopping, Command::SetNull(false)),
            Event::EosWaited(Some(BusMessage::Error)) => (
                Phase::Failing(Outcome::FinalizeError),
                Command::ForceNull,
            ),
            Event::Nulled(ok) => match self.phase {
                Phase::Failing(outcome) => (Phase::Done(outcome), Command::Finish),
                _ => if ok {
                    (Phase::Done(Outcome::Finished), Command::Finish)
                } else {
                    (Phase::Done(Outcome::NullFailed), Command::Finish)
                },
            },
        };
        self.phase = phase;
        command
    }
}

/// Begins a recording of the given length. The first thing to do is to set
/// the pipeline playing.
pub fn run_recording(duration: Span) -> (begun: (Recording, Command))
    ensures
        begun.0.length() == duration.total(),
        begun.0.length() == duration.secs * 1_000_000_000 + duration.nanos,
        begun.0.at() == Phase::Starting,
        begun.1 == Command::SetPlaying,
{
    let nanos: u128 = duration.secs as u128 * 1_000_000_000 + duration.nanos as u128;
    (Recording { duration: nanos, phase: Phase::Starting }, Command::SetPlaying)
}

/// Where a recording of `duration` nanoseconds stands after `events`.
pub open spec fn phase_after(duration: nat, events: Seq<Event>) -> Phase
    decreases events.len(),
{
    if events.len() == 0 {
        Phase::Starting
    } else {
        next(duration, phase_after(duration, events.drop_last()), events.last()).0
    }
}

/// The command that the `i`th of `events` was answered with.
pub open spec fn command_at(duration: nat, events: Seq<Event>, i: int) -> Command {
    next(duration, phase_after(duration, events.take(i)), events[i]).1
}

/// Whether each of `events` answers what was asked for.
pub open spec fn in_turn(duration: nat, events: Seq<Event>) -> bool {
    forall|i: int|
        0 <= i < events.len() ==> awaits(phase_after(duration, events.take(i)), #[trigger] events[i])
}

/// Whether an end of stream has gone through the pipeline, or was sent into
/// it, in the course of `events`.
pub open spec fn flushed(duration: nat, events: Seq<Event>) -> bool {
    exists|i: int|
        0 <= i < events.len() && (#[trigger] events[i] == Event::Polled(Some(BusMessage::Eos))
            || command_at(duration, events, i) == Command::SendEos(EOS_TIMEOUT_SECS))
}

/// Whether, in the course of `events`, the pipeline was to be taken down
/// after it had been flushed.
pub open spec fn closed_cleanly(duration: nat, events: Seq<Event>) -> bool {
    exists|i: int|
        0 <= i < events.len() && (#[trigger] command_at(duration, events, i) is SetNull) && flushed(
            duration,
            events.take(i + 1),
        )
}

/// Whether an end of stream has gone all the way through the pipeline in the
/// course of `events`.
pub open spec fn eos_arrived(events: Seq<Event>) -> bool {
    exists|i: int| 0 <= i < events.len() && is_eos(#[trigger] events[i])
}

/// Whether `event` is the arrival of an end of stream.
pub open spec fn is_eos(event: Event) -> bool {
    event == Event::Polled(Some(BusMessage::Eos)) || event == Event::EosWaited(
        Some(BusMessage::Eos),
    )
}

/// Whether `command` was given in the course of `events`.
pub open spec fn commanded(duration: nat, events: Seq<Event>, command: Command) -> bool {
    exists|i: int| 0 <= i < events.len() && #[trigger] command_at(duration, events, i) == command
}

/// Whether an end of stream has gone all the way through the pipeline, or it
/// was to be warned that the file may not be complete.
pub open spec fn complete_or_warned(duration: nat, events: Seq<Event>) -> bool {
    eos_arrived(events) || commanded(duration, events, Command::SetNull(true))
}

proof fn lemma_history(duration: nat, events: Seq<Event>)
    requires
        events.len() > 0,
        in_turn(duration, events),
    ensures
        ({
            let before = events.drop_last();
            &&& in_turn(duration, before)
            &&& awaits(phase_after(duration, before), events.last())
            &&& flushed(duration, before) ==> flushed(duration, events)
            &&& closed_cleanly(duration, before) ==> closed_cleanly(duration, events)
            &&& eos_arrived(before) ==> eos_arrived(events)
            &&& forall|c: Command| #[trigger] commanded(duration, before, c) ==> commanded(duration, events, c)
            &&& command_at(duration, events, events.len() - 1) == next(
                duration,
                phase_after(duration, before),
                events.last(),
            ).1
        }),
{
    let before = events.drop_last();
    let n = events.len() - 1;
    assert(events.take(n) =~= before);
    assert(events[n] == events.last());
    assert forall|i: int| 0 <= i < before.len() implies awaits(
        phase_after(duration, before.take(i)),
        #[trigger] before[i],
    ) by {
        assert(before.take(i) =~= events.take(i));
        assert(before[i] == events[i]);
    }
    assert forall|i: int| 0 <= i < before.len() implies #[trigger] command_at(duration, before, i)
        == command_at(duration, events, i) && before[i] == events[i] by {
        assert(before.take(i) =~= events.take(i));
    }
    if flushed(duration, before) {
        let i = choose|i: int|
            0 <= i < before.len() && (#[trigger] before[i] == Event::Polled(Some(BusMessage::Eos))
                || command_at(duration, before, i) == Command::SendEos(EOS_TIMEOUT_SECS));
        assert(command_at(duration, before, i) == command_at(duration, events, i));
        assert(events[i] == before[i]);
    }
    if closed_cleanly(duration, before) {
        let i = choose|i: int|
            0 <= i < before.len() && (#[trigger] command_at(duration, before, i) is SetNull) && flushed(
                duration,
                before.take(i + 1),
            );
        assert(command_at(duration, events, i) is SetNull);
        assert(before.take(i + 1) =~= events.take(i + 1));
    }
    if eos_arrived(before) {
        let i = choose|i: int| 0 <= i < before.len() && is_eos(#[trigger] before[i]);
        assert(is_eos(events[i]));
    }
    assert forall|c: Command| #[trigger] commanded(duration, before, c) implies commanded(
        duration,
        events,
        c,
    ) by {
        let i = choose|i: int| 0 <= i < before.len() && #[trigger] command_at(duration, before, i) == c;
        assert(command_at(duration, events, i) == c);
    }
}

/// What holds of a recording in each phase, whatever has happened to it.
proof fn lemma_phases(duration: nat, events: Seq<Event>)
    requires
        in_turn(duration, events),
    ensures
        match phase_after(duration, events) {
            Phase::Finalizing => flushed(duration, events),
            Phase::Stopping => closed_cleanly(duration, events) && complete_or_warned(
                duration,
                events,
            ),
            Phase::Failing(outcome) => commanded(duration, events, Command::ForceNull) && (outcome
                == Outcome::PipelineError || outcome == Outcome::FinalizeError),
            Phase::Done(Outcome::Finished) => closed_cleanly(duration, events)
                && complete_or_warned(duration, events),
            Phase::Done(Outcome::PipelineError) => commanded(duration, events, Command::ForceNull),
            Phase::Done(Outcome::FinalizeError) => commanded(duration, events, Command::ForceNull),
            _ => true,
        },
    decreases events.len(),
{
    if events.len() > 0 {
        lemma_history(duration, events);
        lemma_phases(duration, events.drop_last());
        let n = events.len() - 1;
        let c = command_at(duration, events, n);
        assert(commanded(duration, events, c));
        assert(events[n] == events.last());
        assert(is_eos(events[n]) ==> eos_arrived(events));
        assert(events.take(n + 1) =~= events);
    }
}

/// A recording that ends well never leaves a file cut short: an end of
/// stream went through the pipeline, or was sent into it, before the
/// pipeline was taken down.
pub proof fn law_finished_files_are_flushed(duration: nat, events: Seq<Event>)
    requires
        in_turn(duration, events),
        phase_after(duration, events) == Phase::Done(Outcome::Finished),
    ensures
        closed_cleanly(duration, events),
{
    lemma_phases(duration, events);
}

/// A recording that ends well without a warning has a complete file: an end
/// of stream went all the way through the pipeline.
pub proof fn law_unwarned_files_are_complete(duration: nat, events: Seq<Event>)
    requires
        in_turn(duration, events),
        phase_after(duration, events) == Phase::Done(Outcome::Finished),
        !commanded(duration, events, Command::SetNull(true)),
    ensures
        eos_arrived(events),
{
    lemma_phases(duration, events);
}

/// How many times an end of stream was sent in the course of `events`.
pub open spec fn eos_sent(duration: nat, events: Seq<Event>) -> nat
    decreases events.len(),
{
    if events.len() == 0 {
        0
    } else {
        let before = events.drop_last();
        eos_sent(duration, before) + if next(
            duration,
            phase_after(duration, before),
            events.last(),
        ).1 is SendEos {
            1nat
        } else {
            0nat
        }
    }
}

/// Whether the pipeline ended by itself in the course of `events`.
pub open spec fn ended_by_itself(events: Seq<Event>) -> bool
    decreases events.len(),
{
    events.len() > 0 && (ended_by_itself(events.drop_last()) || events.last() == Event::Polled(
        Some(BusMessage::Eos),
    ))
}

/// Whether a recording in `phase` can have sent `sent` ends of stream, where
/// `own` says whether it ended by itself.
spec fn can_have_sent(phase: Phase, sent: nat, own: bool) -> bool {
    let due: nat = if own {
        0
    } else {
        1
    };
    match phase {
        Phase::Finalizing => sent == 1 && !own,
        Phase::Stopping => sent == due,
        Phase::Done(Outcome::Finished) => sent == due,
        Phase::Failing(outcome) => sent <= due && outcome != Outcome::Finished,
        Phase::Done(_) => sent <= due,
        _ => sent == 0 && !own,
    }
}

/// One turn keeps the count of ends of stream right.
proof fn lemma_eos_turn(duration: nat, phase: Phase, event: Event, sent: nat, own: bool)
    requires
        awaits(phase, event),
        can_have_sent(phase, sent, own),
    ensures
        can_have_sent(
            next(duration, phase, event).0,
            sent + if next(duration, phase, event).1 is SendEos {
                1nat
            } else {
                0nat
            },
            own || event == Event::Polled(Some(BusMessage::Eos)),
        ),
{
}

/// The count of ends of stream is right after any turns.
proof fn lemma_eos_sent(duration: nat, events: Seq<Event>)
    requires
        in_turn(duration, events),
    ensures
        can_have_sent(
            phase_after(duration, events),
            eos_sent(duration, events),
            ended_by_itself(events),
        ),
    decreases events.len(),
{
    if events.len() > 0 {
        let before = events.drop_last();
        assert(in_turn(duration, before) && awaits(phase_after(duration, before), events.last()))
            by {
            lemma_history(duration, events);
        }
        lemma_eos_sent(duration, before);
        lemma_eos_turn(
            duration,
            phase_after(duration, before),
            events.last(),
            eos_sent(duration, before),
            ended_by_itself(before),
        );
    }
}

/// A finished recording was sent exactly one end of stream, or none where it
/// ended by itself; and no recording is ever sent a second one, or one after
/// it ended by itself.
pub proof fn law_one_end_of_stream(duration: nat, events: Seq<Event>)
    requires
        in_turn(duration, events),
    ensures
        phase_after(duration, events) == Phase::Done(Outcome::Finished) ==> eos_sent(
            duration,
            events,
        ) == if ended_by_itself(events) {
            0nat
        } else {
            1nat
        },
        eos_sent(duration, events) <= 1,
        ended_by_itself(events) ==> eos_sent(duration, events) == 0,
{
    lemma_eos_sent(duration, events);
}

/// An error in the pipeline never leaves it running.
pub proof fn law_errors_take_the_pipeline_down(duration: nat, events: Seq<Event>)
    requires
        in_turn(duration, events),
        phase_after(duration, events) == Phase::Done(Outcome::PipelineError) || phase_after(
            duration,
            events,
        ) == Phase::Done(Outcome::FinalizeError),
    ensures
        commanded(duration, events, Command::ForceNull),
{
    lemma_phases(duration, events);
}

/// As soon as the stop flag is set or the time is up, the next thing to be
/// done is to send the end of stream; until then the recording goes on,
/// and looks again after a wait that is never empty, never longer than a
/// slice and never past the end.
pub proof fn law_recording_stops_when_it_should(duration: nat, stop: bool, elapsed: u128)
    ensures
        stop || elapsed >= duration ==> next(
            duration,
            Phase::Checking,
            Event::Clock(stop, elapsed),
        ).1 == Command::SendEos(EOS_TIMEOUT_SECS),
        !stop && elapsed < duration ==> (next(
            duration,
            Phase::Checking,
            Event::Clock(stop, elapsed),
        ).1 matches Command::Poll(wait) && 0 < wait <= POLL_SLICE_NANOS && elapsed + wait
            <= duration),
{
}

/// Once the end of stream has been sent, a recording takes two more turns
/// and is over.
pub proof fn law_finishing_takes_two_turns(duration: nat, first: Event, second: Event)
    requires
        awaits(Phase::Finalizing, first),
        awaits(next(duration, Phase::Finalizing, first).0, second),
    ensures
        next(duration, next(duration, Phase::Finalizing, first).0, second).0 is Done,
        next(duration, next(duration, Phase::Finalizing, first).0, second).1 == Command::Finish,
{
}

/// A recording waits for what is left of it, and no longer than a fifth of a
/// second at a time; the end of stream is given ten seconds.
pub proof fn law_waits_are_as_long_as_they_should_be(duration: nat, stop: bool, elapsed: u128)
    ensures
        stop || elapsed >= duration ==> next(duration, Phase::Checking, Event::Clock(stop, elapsed))
            == (Phase::Finalizing, Command::SendEos(10)),
        !stop && elapsed < duration && duration - elapsed <= 200_000_000 ==> next(
            duration,
            Phase::Checking,
            Event::Clock(stop, elapsed),
        ) == (Phase::Polling, Command::Poll((duration - elapsed) as u64)),
        !stop && duration - elapsed > 200_000_000 ==> next(
            duration,
            Phase::Checking,
            Event::Clock(stop, elapsed),
        ) == (Phase::Polling, Command::Poll(200_000_000)),
{
}

/// A recording starts by playing, then by getting hold of the bus; where
/// either fails it is over, and says which. After that it looks at the clock
/// until something happens.
pub proof fn law_recordings_start_in_order(duration: nat)
    ensures
        next(duration, Phase::Starting, Event::Started(true)) == (
            Phase::FindingBus,
            Command::GetBus,
        ),
        next(duration, Phase::Starting, Event::Started(false)) == (
            Phase::Done(Outcome::StartFailed),
            Command::Finish,
        ),
        next(duration, Phase::FindingBus, Event::Bus(true)) == (Phase::Checking, Command::Check),
        next(duration, Phase::FindingBus, Event::Bus(false)) == (
            Phase::Done(Outcome::NoBus),
            Command::Finish,
        ),
        next(duration, Phase::Polling, Event::Polled(None)) == (Phase::Checking, Command::Check),
{
}

/// An end of stream closes the file, without a warning if it went all the
/// way through and with one if it did not. An error takes the pipeline down,
/// and is what the recording ends with, however that goes; otherwise the
/// recording ends well exactly if the pipeline could be taken down.
pub proof fn law_recordings_end_as_they_went(duration: nat, down: bool, outcome: Outcome)
    ensures
        next(duration, Phase::Polling, Event::Polled(Some(BusMessage::Eos))) == (
            Phase::Stopping,
            Command::SetNull(false),
        ),
        next(duration, Phase::Polling, Event::Polled(Some(BusMessage::Error))) == (
            Phase::Failing(Outcome::PipelineError),
            Command::ForceNull,
        ),
        next(duration, Phase::Finalizing, Event::EosWaited(Some(BusMessage::Eos))) == (
            Phase::Stopping,
            Command::SetNull(false),
        ),
        next(duration, Phase::Finalizing, Event::EosWaited(None)) == (
            Phase::Stopping,
            Command::SetNull(true),
        ),
        next(duration, Phase::Finalizing, Event::EosWaited(Some(BusMessage::Error))) == (
            Phase::Failing(Outcome::FinalizeError),
            Command::ForceNull,
        ),
        next(duration, Phase::Failing(outcome), Event::Nulled(down)) == (
            Phase::Done(outcome),
            Command::Finish,
        ),
        next(duration, Phase::Stopping, Event::Nulled(down)).1 == Command::Finish,
        next(duration, Phase::Stopping, Event::Nulled(down)).0 == Phase::Done(Outcome::Finished)
            <==> down,
        next(duration, Phase::Stopping, Event::Nulled(down)).0 == Phase::Done(Outcome::NullFailed)
            <==> !down,
{
}

} // verus!
