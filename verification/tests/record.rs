use desktoprecorder::cli::Span;
use desktoprecorder::record::{run_recording, BusMessage, Command, Event, Outcome, Phase};

#[derive(Debug, Clone, Copy, PartialEq)]
enum State {
    Ready,
    Playing,
    Null,
}

/// A pipeline on a clock of its own, which moves only while something is
/// waited for.
struct Pipeline {
    now: u128,
    state: State,
    can_start: bool,
    has_bus: bool,
    can_null: bool,
    /// The stop flag is set from this moment on.
    stop_at: Option<u128>,
    /// A message is on the bus from this moment on.
    message: Option<(u128, BusMessage)>,
    /// What comes of an end of stream that is sent.
    eos_reply: Option<BusMessage>,
    eos_sent: u32,
    warned: bool,
}

fn unbounded_pipeline() -> Pipeline {
    Pipeline {
        now: 0,
        state: State::Ready,
        can_start: true,
        has_bus: true,
        can_null: true,
        stop_at: None,
        message: None,
        eos_reply: Some(BusMessage::Eos),
        eos_sent: 0,
        warned: false,
    }
}

fn drive(pipeline: &mut Pipeline, duration: Span) -> Outcome {
    let (mut recording, mut command) = run_recording(duration);
    let start = pipeline.now;
    for _ in 0..1_000_000 {
        let event = match command {
            Command::SetPlaying => {
                if pipeline.can_start {
                    pipeline.state = State::Playing;
                }
                Event::Started(pipeline.can_start)
            }
            Command::GetBus => Event::Bus(pipeline.has_bus),
            Command::Check => {
                let stop = pipeline.stop_at.is_some_and(|at| pipeline.now >= at);
                Event::Clock(stop, pipeline.now - start)
            }
            Command::Poll(nanos) => match pipeline.message {
                Some((at, message)) if at <= pipeline.now + u128::from(nanos) => {
                    pipeline.now = pipeline.now.max(at);
                    Event::Polled(Some(message))
                }
                _ => {
                    pipeline.now += u128::from(nanos);
                    Event::Polled(None)
                }
            },
            Command::SendEos(secs) => {
                pipeline.eos_sent += 1;
                if pipeline.eos_reply.is_none() {
                    pipeline.now += u128::from(secs) * 1_000_000_000;
                }
                Event::EosWaited(pipeline.eos_reply)
            }
            Command::SetNull(warn) => {
                pipeline.warned = warn;
                if pipeline.can_null {
                    pipeline.state = State::Null;
                }
                Event::Nulled(pipeline.can_null)
            }
            Command::ForceNull => {
                pipeline.state = State::Null;
                Event::Nulled(true)
            }
            Command::Finish => match recording.phase() {
                Phase::Done(outcome) => return outcome,
                other => panic!("{other:?}"),
            },
        };
        command = recording.step(event);
    }
    panic!("never finished");
}

fn secs(secs: u64) -> Span {
    Span { secs, nanos: 0 }
}

const SECOND: u128 = 1_000_000_000;

#[test]
fn stops_on_eos_before_the_duration_elapses() {
    let mut pipeline = unbounded_pipeline();
    pipeline.message = Some((SECOND / 10, BusMessage::Eos));
    assert_eq!(drive(&mut pipeline, secs(30)), Outcome::Finished);
    assert!(pipeline.now < 5 * SECOND, "took {:?}, expected an early EOS-driven return", pipeline.now);
    assert_eq!(pipeline.state, State::Null);
    // No second end of stream is sent after the first.
    assert_eq!(pipeline.eos_sent, 0);
}

#[test]
fn stops_when_the_duration_elapses() {
    let mut pipeline = unbounded_pipeline();
    let duration = Span { secs: 0, nanos: 400_000_000 };
    assert_eq!(drive(&mut pipeline, duration), Outcome::Finished);
    let elapsed = pipeline.now;
    let whole = 400_000_000u128;
    assert!(elapsed >= whole, "returned after {elapsed:?}, before the {duration:?} deadline");
    assert!(elapsed < whole + 5 * SECOND, "took {elapsed:?}, expected to stop near the {duration:?} deadline");
    assert_eq!(pipeline.eos_sent, 1);
    assert!(!pipeline.warned);
}

#[test]
fn stops_early_when_stop_requested_is_set() {
    let mut pipeline = unbounded_pipeline();
    pipeline.stop_at = Some(150_000_000);
    assert_eq!(drive(&mut pipeline, secs(30)), Outcome::Finished);
    assert!(pipeline.now < 5 * SECOND, "took {:?}, expected the stop flag to cut it short", pipeline.now);
    assert_eq!(pipeline.eos_sent, 1);
}

#[test]
fn surfaces_an_error_instead_of_hanging_when_the_pipeline_cant_start() {
    let mut pipeline = unbounded_pipeline();
    pipeline.can_start = false;
    let outcome = drive(&mut pipeline, secs(30));
    assert!(outcome != Outcome::Finished, "expected an error from a pipeline that can't open its output file");
    assert_eq!(outcome, Outcome::StartFailed);

    let mut failing = unbounded_pipeline();
    failing.message = Some((0, BusMessage::Error));
    assert_eq!(drive(&mut failing, secs(30)), Outcome::PipelineError);
    assert_eq!(failing.state, State::Null);
}

#[test]
fn a_pipeline_without_a_bus_is_an_error() {
    let mut pipeline = unbounded_pipeline();
    pipeline.has_bus = false;
    assert_eq!(drive(&mut pipeline, secs(1)), Outcome::NoBus);
}

#[test]
fn an_error_while_finishing_takes_the_pipeline_down() {
    let mut pipeline = unbounded_pipeline();
    pipeline.eos_reply = Some(BusMessage::Error);
    assert_eq!(drive(&mut pipeline, secs(1)), Outcome::FinalizeError);
    assert_eq!(pipeline.state, State::Null);
}

#[test]
fn an_end_of_stream_that_never_arrives_is_warned_of() {
    let mut pipeline = unbounded_pipeline();
    pipeline.eos_reply = None;
    assert_eq!(drive(&mut pipeline, secs(1)), Outcome::Finished);
    assert!(pipeline.warned);
    assert_eq!(pipeline.now, 11 * SECOND);
}

#[test]
fn a_pipeline_that_cannot_be_taken_down_is_an_error() {
    let mut pipeline = unbounded_pipeline();
    pipeline.can_null = false;
    assert_eq!(drive(&mut pipeline, secs(1)), Outcome::NullFailed);
}

#[test]
fn waits_are_slices_of_what_is_left() {
    let (mut recording, first) = run_recording(Span { secs: 0, nanos: 250_000_000 });
    assert_eq!(first, Command::SetPlaying);
    assert_eq!(recording.step(Event::Started(true)), Command::GetBus);
    assert_eq!(recording.step(Event::Bus(true)), Command::Check);
    assert_eq!(recording.step(Event::Clock(false, 0)), Command::Poll(200_000_000));
    assert_eq!(recording.step(Event::Polled(None)), Command::Check);
    assert_eq!(recording.step(Event::Clock(false, 200_000_000)), Command::Poll(50_000_000));
    assert_eq!(recording.step(Event::Polled(None)), Command::Check);
    assert_eq!(recording.step(Event::Clock(false, 250_000_000)), Command::SendEos(10));
}
