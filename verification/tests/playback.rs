use std::time::Duration;
use viu::grid::{Pixel, PixelGrid};
use viu::playback::{
    Action, Event, Frame, FrameSequencer, FrameSet, Outcome, Phase, PlaybackError, PlaybackMode,
    PlaybackState, Step,
};

const MS10: Duration = Duration::from_millis(10);
const QUIET: Event = Event::Waited { stop_requested: false };
const STOP: Event = Event::Waited { stop_requested: true };

fn frame(height: u32, duration: Option<Duration>) -> Frame {
    let pixel = Pixel { r: 0, g: 0, b: 0, a: 255 };
    let grid = PixelGrid::new(1, height, vec![pixel; height as usize]).unwrap();
    Frame::new(grid, duration)
}

fn sequencer(heights: &[u32], mode: PlaybackMode, delay: Option<Duration>) -> FrameSequencer {
    let frames = heights.iter().map(|h| frame(*h, Some(MS10))).collect();
    FrameSequencer::new(FrameSet::new(frames).unwrap(), mode, delay)
}

fn run(sequencer: &mut FrameSequencer, events: &[Event]) -> Vec<Action> {
    sequencer.replay(events)
}

fn count(actions: &[Action], wanted: fn(&Action) -> bool) -> usize {
    actions.iter().filter(|a| wanted(a)).count()
}

fn is_render(action: &Action) -> bool {
    matches!(action, Action::Render(_))
}

fn is_rewind(action: &Action) -> bool {
    matches!(action, Action::MoveCursorUp(_))
}

fn is_acknowledge(action: &Action) -> bool {
    matches!(action, Action::Acknowledge)
}

#[test]
fn frame_set_needs_a_frame() {
    assert!(FrameSet::new(vec![]).is_none());
    let set = FrameSet::new(vec![frame(2, None), frame(3, Some(MS10))]).unwrap();
    assert_eq!(set.len(), 2);
    assert_eq!(set.frame(1).duration(), Some(MS10));
    assert_eq!(set.frame(0).duration(), None);
    assert!(set.get(1).is_some());
    assert!(set.get(2).is_none());
}

#[test]
fn frame_rows_are_half_the_height_rounded_up() {
    assert_eq!(frame(0, None).rows(), 0);
    assert_eq!(frame(1, None).rows(), 1);
    assert_eq!(frame(2, None).rows(), 1);
    assert_eq!(frame(3, None).rows(), 2);
    assert_eq!(frame(10, None).rows(), 5);
    assert_eq!(frame(11, None).rows(), 6);
    assert_eq!(frame(11, None).grid().height(), 11);
}

#[test]
fn new_sequencer_is_idle() {
    let seq = sequencer(&[2], PlaybackMode::Looping, None);
    assert_eq!(seq.phase(), Phase::Idle);
    assert!(!seq.is_stopped());
    assert_eq!(seq.state(), PlaybackState { mode: PlaybackMode::Looping, cancelled: false });
    assert_eq!(seq.frames().len(), 1);
}

#[test]
fn three_frames_played_once() {
    let mut seq = sequencer(&[4, 4, 4], PlaybackMode::PlayOnce, None);
    let events =
        [Event::Start, Event::Rendered, QUIET, Event::CursorMoved, Event::Rendered, QUIET,
            Event::CursorMoved, Event::Rendered, QUIET];
    let actions = run(&mut seq, &events);
    assert_eq!(
        actions,
        vec![
            Action::Render(0),
            Action::Wait(Some(MS10)),
            Action::MoveCursorUp(2),
            Action::Render(1),
            Action::Wait(Some(MS10)),
            Action::MoveCursorUp(2),
            Action::Render(2),
            Action::Wait(Some(MS10)),
            Action::Finish(Outcome::Completed),
        ]
    );
    assert_eq!(count(&actions, is_render), 3);
    assert_eq!(count(&actions, is_rewind), 2);
    assert_eq!(seq.phase(), Phase::Stopped(Outcome::Completed));
    assert!(seq.is_stopped());
    assert!(!seq.state().cancelled);
    // no loop back: whatever is reported now, nothing more is done
    assert_eq!(seq.step(Event::CursorMoved), Action::Finish(Outcome::Completed));
    assert_eq!(seq.step(Event::Start), Action::Finish(Outcome::Completed));
    assert_eq!(seq.phase(), Phase::Stopped(Outcome::Completed));
}

#[test]
fn looping_rewinds_after_every_frame() {
    let mut seq = sequencer(&[3, 5, 8], PlaybackMode::Looping, None);
    let mut events = vec![Event::Start];
    for _ in 0..3 {
        events.extend([Event::Rendered, QUIET, Event::CursorMoved]);
    }
    let actions = run(&mut seq, &events);
    assert_eq!(count(&actions, is_rewind), 3);
    assert_eq!(count(&actions, is_render), 4);
    assert_eq!(
        actions,
        vec![
            Action::Render(0),
            Action::Wait(Some(MS10)),
            Action::MoveCursorUp(2),
            Action::Render(1),
            Action::Wait(Some(MS10)),
            Action::MoveCursorUp(3),
            Action::Render(2),
            Action::Wait(Some(MS10)),
            Action::MoveCursorUp(4),
            Action::Render(0),
        ]
    );
    assert_eq!(seq.phase(), Phase::Playing(0, Step::Render));
}

#[test]
fn single_frame_loops_onto_itself() {
    let mut seq = sequencer(&[2], PlaybackMode::Looping, None);
    let actions = run(&mut seq, &[Event::Start, Event::Rendered, QUIET, Event::CursorMoved]);
    assert_eq!(
        actions,
        vec![
            Action::Render(0),
            Action::Wait(Some(MS10)),
            Action::MoveCursorUp(1),
            Action::Render(0)
        ]
    );
}

#[test]
fn single_frame_played_once_is_not_rewound() {
    let mut seq = sequencer(&[2], PlaybackMode::PlayOnce, None);
    let actions = run(&mut seq, &[Event::Start, Event::Rendered, QUIET]);
    assert_eq!(
        actions,
        vec![Action::Render(0), Action::Wait(Some(MS10)), Action::Finish(Outcome::Completed)]
    );
}

#[test]
fn static_mode_shows_the_first_frame_only() {
    let mut seq = sequencer(&[4, 4, 4], PlaybackMode::StaticFirstFrameOnly, None);
    let actions = run(&mut seq, &[Event::Start, Event::Rendered]);
    assert_eq!(actions, vec![Action::Render(0), Action::Finish(Outcome::Completed)]);
    assert!(seq.is_stopped());
}

#[test]
fn global_delay_wins_over_the_frames_own() {
    let global = Duration::from_millis(250);
    let mut seq = sequencer(&[2, 2], PlaybackMode::PlayOnce, Some(global));
    let actions = run(&mut seq, &[Event::Start, Event::Rendered]);
    assert_eq!(actions[1], Action::Wait(Some(global)));

    let frames = vec![frame(2, None), frame(2, Some(MS10))];
    let mut seq = FrameSequencer::new(FrameSet::new(frames).unwrap(), PlaybackMode::PlayOnce, None);
    let actions = run(&mut seq, &[Event::Start, Event::Rendered, QUIET, Event::CursorMoved, Event::Rendered]);
    assert_eq!(actions[1], Action::Wait(None));
    assert_eq!(actions[4], Action::Wait(Some(MS10)));

    let frames = vec![frame(2, None)];
    let mut seq =
        FrameSequencer::new(FrameSet::new(frames).unwrap(), PlaybackMode::PlayOnce, Some(global));
    let actions = run(&mut seq, &[Event::Start, Event::Rendered]);
    assert_eq!(actions[1], Action::Wait(Some(global)));
}

#[test]
fn stop_request_is_acknowledged_once_and_ends_playback() {
    let mut seq = sequencer(&[4, 4, 4], PlaybackMode::Looping, None);
    let events = [
        Event::Start,
        Event::Rendered,
        QUIET,
        Event::CursorMoved,
        Event::Rendered,
        STOP,
        Event::Acknowledged,
        Event::Rendered,
        STOP,
        Event::CursorMoved,
        Event::Start,
    ];
    let actions = run(&mut seq, &events);
    assert_eq!(actions[5], Action::Acknowledge);
    assert_eq!(count(&actions, is_acknowledge), 1);
    assert_eq!(count(&actions, is_render), 2);
    assert_eq!(count(&actions[5..], is_render), 0);
    for action in &actions[6..] {
        assert_eq!(*action, Action::Finish(Outcome::Cancelled));
    }
    assert!(seq.state().cancelled);
    assert_eq!(seq.phase(), Phase::Stopped(Outcome::Cancelled));
}

#[test]
fn stop_request_on_the_last_frame_of_a_single_pass() {
    let mut seq = sequencer(&[4], PlaybackMode::PlayOnce, None);
    let actions = run(&mut seq, &[Event::Start, Event::Rendered, STOP, Event::Acknowledged]);
    assert_eq!(
        actions,
        vec![
            Action::Render(0),
            Action::Wait(Some(MS10)),
            Action::Acknowledge,
            Action::Finish(Outcome::Cancelled)
        ]
    );
    assert_eq!(seq.phase(), Phase::Stopped(Outcome::Cancelled));
}

#[test]
fn stop_request_waits_for_the_acknowledgment() {
    let mut seq = sequencer(&[4, 4], PlaybackMode::Looping, None);
    run(&mut seq, &[Event::Start, Event::Rendered, STOP]);
    assert_eq!(seq.phase(), Phase::Playing(0, Step::Acknowledge));
    assert!(seq.state().cancelled);
    assert!(!seq.is_stopped());
}

#[test]
fn failed_acknowledgment_is_an_error() {
    let mut seq = sequencer(&[4, 4], PlaybackMode::Looping, None);
    let actions = run(&mut seq, &[Event::Start, Event::Rendered, STOP, Event::AcknowledgeFailed]);
    assert_eq!(actions[3], Action::Finish(Outcome::Failed(PlaybackError::Acknowledge)));
    assert_eq!(seq.phase(), Phase::Stopped(Outcome::Failed(PlaybackError::Acknowledge)));
}

#[test]
fn closed_output_ends_playback_without_an_error() {
    let mut seq = sequencer(&[4, 4], PlaybackMode::Looping, None);
    let actions = run(
        &mut seq,
        &[Event::Start, Event::Rendered, QUIET, Event::OutputClosed, Event::Rendered],
    );
    assert_eq!(actions[3], Action::Finish(Outcome::OutputClosed));
    assert_eq!(actions[4], Action::Finish(Outcome::OutputClosed));
    assert_eq!(count(&actions, is_render), 1);
}

#[test]
fn cursor_failure_is_an_error() {
    let mut seq = sequencer(&[4, 4], PlaybackMode::Looping, None);
    let actions = run(&mut seq, &[Event::Start, Event::Rendered, QUIET, Event::CursorFailed]);
    assert_eq!(actions[3], Action::Finish(Outcome::Failed(PlaybackError::Cursor)));
}

#[test]
fn render_failure_is_an_error() {
    let mut seq = sequencer(&[4, 4], PlaybackMode::Looping, None);
    let actions = run(&mut seq, &[Event::Start, Event::RenderFailed, Event::Rendered]);
    assert_eq!(
        actions,
        vec![
            Action::Render(0),
            Action::Finish(Outcome::Failed(PlaybackError::Render)),
            Action::Finish(Outcome::Failed(PlaybackError::Render)),
        ]
    );
}

#[test]
fn unexpected_events_end_playback() {
    let unexpected = Action::Finish(Outcome::Failed(PlaybackError::UnexpectedEvent));
    let mut seq = sequencer(&[4, 4], PlaybackMode::Looping, None);
    assert_eq!(seq.step(Event::Rendered), unexpected);

    let mut seq = sequencer(&[4, 4], PlaybackMode::Looping, None);
    seq.step(Event::Start);
    assert_eq!(seq.step(Event::Start), unexpected);

    let mut seq = sequencer(&[4, 4], PlaybackMode::Looping, None);
    run(&mut seq, &[Event::Start, Event::Rendered]);
    assert_eq!(seq.step(Event::CursorMoved), unexpected);

    let mut seq = sequencer(&[4, 4], PlaybackMode::Looping, None);
    run(&mut seq, &[Event::Start, Event::Rendered, QUIET]);
    assert_eq!(seq.step(Event::Acknowledged), unexpected);

    let mut seq = sequencer(&[4, 4], PlaybackMode::Looping, None);
    run(&mut seq, &[Event::Start, Event::Rendered, STOP]);
    assert_eq!(seq.step(Event::Rendered), unexpected);
    assert!(seq.is_stopped());
}

#[test]
fn replay_is_step_after_step() {
    let events = [
        Event::Start,
        Event::Rendered,
        QUIET,
        Event::CursorMoved,
        Event::Rendered,
        STOP,
        Event::Acknowledged,
        Event::Rendered,
    ];
    let mut stepped = sequencer(&[3, 5], PlaybackMode::Looping, None);
    let one_by_one: Vec<Action> = events.iter().map(|event| stepped.step(*event)).collect();
    let mut replayed = sequencer(&[3, 5], PlaybackMode::Looping, None);
    assert_eq!(replayed.replay(&events), one_by_one);
    assert_eq!(replayed.phase(), stepped.phase());
    assert_eq!(replayed.state(), stepped.state());
    assert_eq!(replayed.replay(&[]), vec![]);
    assert_eq!(replayed.phase(), stepped.phase());
}

#[test]
fn playback_error_messages() {
    assert_eq!(PlaybackError::Render.message(), "Could not render a frame.");
    assert_eq!(PlaybackError::Acknowledge.message(), "Could not send signal to clean up.");
    assert_eq!(PlaybackError::Cursor.message(), "Could not move the cursor.");
    assert_eq!(PlaybackError::UnexpectedEvent.message(), "Playback was driven out of order.");
}
