//! The frame sequencer: replaying an animation in place, as a state machine.
//!
//! The sequencer decides; its caller acts. The caller reports what happened
//! as an [`Event`], the sequencer answers with the next [`Action`] to carry
//! out: render a frame, wait, acknowledge a stop request, move the cursor
//! back up over the frame just drawn, or finish.

use crate::grid::{GridView, PixelGrid};
use crate::printer::{rendered_size, terminal_rows};
use std::time::Duration;
use vstd::prelude::*;

verus! {

/// How often the frames are shown.
#[derive(Clone, Copy, Debug, PartialEq, Eq, Structural)]
pub enum PlaybackMode {
    /// After the last frame, start again from the first.
    Looping,
    /// Stop after one pass over the frames.
    PlayOnce,
    /// Show the first frame and stop at once.
    StaticFirstFrameOnly,
}

/// The mode of a playback and whether a stop request has ended it.
#[derive(Clone, Copy, Debug, PartialEq, Eq, Structural)]
pub struct PlaybackState {
    pub mode: PlaybackMode,
    pub cancelled: bool,
}

/// What the caller is doing for the frame at hand.
#[derive(Clone, Copy, Debug, PartialEq, Eq, Structural)]
pub enum Step {
    Render,
    Wait,
    Acknowledge,
    Rewind,
}

/// What went wrong in a playback that failed.
#[derive(Clone, Copy, Debug, PartialEq, Eq, Structural)]
pub enum PlaybackError {
    /// A frame could not be rendered.
    Render,
    /// The acknowledgment of a stop request could not be sent.
    Acknowledge,
    /// The cursor could not be moved, for another reason than a closed output.
    Cursor,
    /// An event was reported that does not answer the last action.
    UnexpectedEvent,
}

impl PlaybackError {
    /// The failure in words.
    pub fn message(self) -> (message: &'static str)
        ensures
            message@ == match self {
                PlaybackError::Render => "Could not render a frame."@,
                PlaybackError::Acknowledge => "Could not send signal to clean up."@,
                PlaybackError::Cursor => "Could not move the cursor."@,
                PlaybackError::UnexpectedEvent => "Playback was driven out of order."@,
            },
    {
        match self {
            PlaybackError::Render => "Could not render a frame.",
            PlaybackError::Acknowledge => "Could not send signal to clean up.",
            PlaybackError::Cursor => "Could not move the cursor.",
            PlaybackError::UnexpectedEvent => "Playback was driven out of order.",
        }
    }
}

/// How a playback ended.
#[derive(Clone, Copy, Debug, PartialEq, Eq, Structural)]
pub enum Outcome {
    /// The last frame that the mode asks for has been shown.
    Completed,
    /// A stop request was seen and acknowledged.
    Cancelled,
    /// The output was closed by its reader; this is no error.
    OutputClosed,
    Failed(PlaybackError),
}

/// Where a playback stands. `Stopped` is final.
#[derive(Clone, Copy, Debug, PartialEq, Eq, Structural)]
pub enum Phase {
    Idle,
    /// The frame at hand, by index, and what is being done for it.
    Playing(usize, Step),
    Stopped(Outcome),
}

/// What the caller reports.
#[derive(Clone, Copy, Debug, PartialEq, Eq, Structural)]
pub enum Event {
    /// The caller is ready to play.
    Start,
    /// The frame was drawn.
    Rendered,
    /// Drawing the frame failed.
    RenderFailed,
    /// The delay has passed; `stop_requested` tells whether the caller found
    /// a stop request pending when it looked for one around the delay.
    Waited { stop_requested: bool },
    /// The acknowledgment was sent.
    Acknowledged,
    /// The acknowledgment could not be sent.
    AcknowledgeFailed,
    /// The cursor was moved.
    CursorMoved,
    /// The cursor could not be moved because the output's reader has closed it.
    OutputClosed,
    /// The cursor could not be moved for another reason.
    CursorFailed,
}

/// What the caller is to do next.
#[derive(Clone, Copy, Debug, PartialEq, Eq)]
pub enum Action {
    /// Draw the frame with this index, then report `Rendered` or `RenderFailed`.
    Render(usize),
    /// Wait for this long, if for any time at all, look for a stop request,
    /// then report `Waited`.
    Wait(Option<Duration>),
    /// Acknowledge the stop request, then report `Acknowledged` or
    /// `AcknowledgeFailed`.
    Acknowledge,
    /// Move the cursor up by this many terminal rows, then report
    /// `CursorMoved`, `OutputClosed` or `CursorFailed`.
    MoveCursorUp(u32),
    /// Nothing is left to do.
    Finish(Outcome),
}

/// The mathematical content of a frame.
pub struct FrameView {
    pub grid: GridView,
    pub duration: Option<Duration>,
}

/// One picture of an animation and how long it is shown.
pub struct Frame {
    grid: PixelGrid,
    duration: Option<Duration>,
}

impl View for Frame {
    type V = FrameView;

    closed spec fn view(&self) -> FrameView {
        FrameView { grid: self.grid@, duration: self.duration }
    }
}

impl Frame {
    /// A frame that shows `grid` for `duration`.
    pub fn new(grid: PixelGrid, duration: Option<Duration>) -> (frame: Frame)
        ensures
            frame@ == (FrameView { grid: grid@, duration }),
    {
        Frame { grid, duration }
    }

    /// The picture.
    pub fn grid(&self) -> (grid: &PixelGrid)
        ensures
            grid@ == self@.grid,
    {
        &self.grid
    }

    /// How long the picture is shown.
    pub fn duration(&self) -> (duration: Option<Duration>)
        ensures
            duration == self@.duration,
    {
        self.duration
    }

    /// The number of terminal rows that the picture occupies.
    pub fn rows(&self) -> (rows: u32)
        ensures
            rows == frame_rows(self@),
    {
        rendered_size(&self.grid).1
    }
}

/// The frames of an animation, in order. There is at least one.
pub struct FrameSet {
    frames: Vec<Frame>,
}

impl View for FrameSet {
    type V = Seq<FrameView>;

    closed spec fn view(&self) -> Seq<FrameView> {
        Seq::new(self.frames@.len(), |i: int| self.frames@[i]@)
    }
}

impl FrameSet {
    #[verifier::type_invariant]
    spec fn well_formed(self) -> bool {
        self.frames@.len() > 0
    }

    /// The frames as a set to play, unless there are none.
    pub fn new(frames: Vec<Frame>) -> (set: Option<FrameSet>)
        ensures
            set is Some <==> frames@.len() > 0,
            set matches Some(s) ==> s@ == Seq::new(frames@.len(), |i: int| frames@[i]@),
    {
        if frames.len() == 0 {
            None
        } else {
            Some(FrameSet { frames })
        }
    }

    /// The number of frames, which is not zero.
    pub fn len(&self) -> (len: usize)
        ensures
            len == self@.len(),
            len > 0,
    {
        proof {
            use_type_invariant(self);
        }
        self.frames.len()
    }

    /// The frame with index `index`.
    pub fn frame(&self, index: usize) -> (frame: &Frame)
        requires
            index < self@.len(),
        ensures
            frame@ == self@[index as int],
    {
        &self.frames[index]
    }

    /// The frame with index `index`, if there is one.
    pub fn get(&self, index: usize) -> (frame: Option<&Frame>)
        ensures
            index < self@.len() ==> frame is Some && frame->0@ == self@[index as int],
            index >= self@.len() ==> frame is None,
    {
        if index < self.frames.len() {
            Some(&self.frames[index])
        } else {
            None
        }
    }
}

/// The mathematical content of a sequencer.
pub struct SequencerView {
    pub frames: Seq<FrameView>,
    /// The delay that replaces every frame's own, if one is set.
    pub delay: Option<Duration>,
    pub state: PlaybackState,
    pub phase: Phase,
}

/// The number of terminal rows that a frame occupies: half its pixel rows,
/// rounded up.
pub open spec fn frame_rows(frame: FrameView) -> nat {
    terminal_rows(frame.grid.height)
}

/// The delay after a frame: the global delay where one is set, else the
/// frame's own.
pub open spec fn resolved_delay(frame: FrameView, global: Option<Duration>) -> Option<Duration> {
    match global {
        Some(delay) => Some(delay),
        None => frame.duration,
    }
}

impl SequencerView {
    /// There is a frame, and the frame at hand is one of them.
    pub open spec fn wf(self) -> bool {
        &&& 0 < self.frames.len() <= usize::MAX
        &&& self.phase matches Phase::Playing(index, _) ==> index < self.frames.len()
    }

    /// Whether another frame is shown after the frame with index `index`.
    pub open spec fn continues_after(self, index: int) -> bool {
        index + 1 < self.frames.len() || self.state.mode == PlaybackMode::Looping
    }

    /// The index of the frame shown after the frame with index `index`.
    pub open spec fn successor(self, index: usize) -> usize {
        if index + 1 < self.frames.len() {
            (index + 1) as usize
        } else {
            0
        }
    }

    /// This sequencer in another phase.
    pub open spec fn at(self, phase: Phase) -> SequencerView {
        SequencerView { phase, ..self }
    }

    /// This sequencer stopped, and the action that says so.
    pub open spec fn finished(self, outcome: Outcome) -> (SequencerView, Action) {
        (self.at(Phase::Stopped(outcome)), Action::Finish(outcome))
    }

    /// The sequencer after an event, and the action it answers with.
    ///
    /// * Idle, on `Start`: the first frame is rendered.
    /// * A frame was rendered: in static mode playback is complete; else the
    ///   resolved delay is waited for.
    /// * The delay has passed: a pending stop request is acknowledged, and
    ///   the playback is marked as cancelled; else the cursor is moved up
    ///   over the frame if another frame follows; else playback is complete.
    /// * The acknowledgment was sent: playback ends as cancelled.
    /// * The cursor was moved: the next frame is rendered. The output was
    ///   closed: playback ends, without an error.
    /// * A failure is reported: playback ends with that failure.
    /// * Stopped: nothing changes, whatever is reported.
    /// * An event that does not answer the last action ends playback as
    ///   failed.
    pub open spec fn next(self, event: Event) -> (SequencerView, Action) {
        match self.phase {
            Phase::Idle => match event {
                Event::Start => (
                    self.at(Phase::Playing(0, Step::Render)),
                    Action::Render(0),
                ),
                _ => self.finished(Outcome::Failed(PlaybackError::UnexpectedEvent)),
            },
            Phase::Playing(index, Step::Render) => match event {
                Event::Rendered => if self.state.mode == PlaybackMode::StaticFirstFrameOnly {
                    self.finished(Outcome::Completed)
                } else {
                    (
                        self.at(Phase::Playing(index, Step::Wait)),
                        Action::Wait(resolved_delay(self.frames[index as int], self.delay)),
                    )
                },
                Event::RenderFailed => self.finished(Outcome::Failed(PlaybackError::Render)),
                _ => self.finished(Outcome::Failed(PlaybackError::UnexpectedEvent)),
            },
            Phase::Playing(index, Step::Wait) => match event {
                Event::Waited { stop_requested } => if stop_requested {
                    (
                        SequencerView {
                            state: PlaybackState { mode: self.state.mode, cancelled: true },
                            phase: Phase::Playing(index, Step::Acknowledge),
                            ..self
                        },
                        Action::Acknowledge,
                    )
                } else if self.continues_after(index as int) {
                    (
                        self.at(Phase::Playing(index, Step::Rewind)),
                        Action::MoveCursorUp(frame_rows(self.frames[index as int]) as u32),
                    )
                } else {
                    self.finished(Outcome::Completed)
                },
                _ => self.finished(Outcome::Failed(PlaybackError::UnexpectedEvent)),
            },
            Phase::Playing(index, Step::Acknowledge) => match event {
                Event::Acknowledged => self.finished(Outcome::Cancelled),
                Event::AcknowledgeFailed => self.finished(
                    Outcome::Failed(PlaybackError::Acknowledge),
                ),
                _ => self.finished(Outcome::Failed(PlaybackError::UnexpectedEvent)),
            },
            Phase::Playing(index, Step::Rewind) => match event {
                Event::CursorMoved => (
                    self.at(Phase::Playing(self.successor(index), Step::Render)),
                    Action::Render(self.successor(index)),
                ),
                Event::OutputClosed => self.finished(Outcome::OutputClosed),
                Event::CursorFailed => self.finished(Outcome::Failed(PlaybackError::Cursor)),
                _ => self.finished(Outcome::Failed(PlaybackError::UnexpectedEvent)),
            },
            Phase::Stopped(outcome) => (self, Action::Finish(outcome)),
        }
    }

    /// The sequencer after a run of events, and the actions it answered with,
    /// one per event.
    pub open spec fn run(self, events: Seq<Event>) -> (SequencerView, Seq<Action>)
        decreases events.len(),
    {
        if events.len() == 0 {
            (self, Seq::empty())
        } else {
            let (before, actions) = self.run(events.drop_last());
            let (after, action) = before.next(events.last());
            (after, actions.push(action))
        }
    }
}

/// Replays a set of frames: it owns them for as long as the playback lasts.
pub struct FrameSequencer {
    frames: FrameSet,
    delay: Option<Duration>,
    state: PlaybackState,
    phase: Phase,
}

impl View for FrameSequencer {
    type V = SequencerView;

    closed spec fn view(&self) -> SequencerView {
        SequencerView {
            frames: self.frames@,
            delay: self.delay,
            state: self.state,
            phase: self.phase,
        }
    }
}

impl FrameSequencer {
    #[verifier::type_invariant]
    spec fn well_formed(self) -> bool {
        self@.wf()
    }

    /// An idle sequencer for `frames`. With `delay` set, every frame is shown
    /// for that long, whatever its own duration.
    pub fn new(frames: FrameSet, mode: PlaybackMode, delay: Option<Duration>) -> (sequencer:
        FrameSequencer)
        ensures
            sequencer@ == (SequencerView {
                frames: frames@,
                delay,
                state: PlaybackState { mode, cancelled: false },
                phase: Phase::Idle,
            }),
            sequencer@.wf(),
    {
        let _ = frames.len();
        FrameSequencer {
            frames,
            delay,
            state: PlaybackState { mode, cancelled: false },
            phase: Phase::Idle,
        }
    }

    /// The frames.
    pub fn frames(&self) -> (frames: &FrameSet)
        ensures
            frames@ == self@.frames,
    {
        &self.frames
    }

    /// The mode, and whether a stop request has been seen.
    pub fn state(&self) -> (state: PlaybackState)
        ensures
            state == self@.state,
    {
        self.state
    }

    /// Where the playback stands.
    pub fn phase(&self) -> (phase: Phase)
        ensures
            phase == self@.phase,
            self@.wf(),
    {
        proof {
            use_type_invariant(self);
        }
        self.phase
    }

    /// Whether the playback has ended.
    pub fn is_stopped(&self) -> (stopped: bool)
        ensures
            stopped == (self@.phase is Stopped),
    {
        match self.phase {
            Phase::Stopped(_) => true,
            _ => false,
        }
    }

    fn finish(&mut self, outcome: Outcome) -> (action: Action)
        ensures
            (final(self)@, action) == old(self)@.finished(outcome),
    {
        proof {
            use_type_invariant(&*self);
        }
        self.phase = Phase::Stopped(outcome);
        Action::Finish(outcome)
    }

    /// Takes the caller's report and answers with what to do next.
    pub fn step(&mut self, event: Event) -> (action: Action)
        ensures
            (final(self)@, action) == old(self)@.next(event),
            final(self)@.wf(),
    {
        proof {
            use_type_invariant(&*self);
        }
        let count: usize = self.frames.len();
        match self.phase {
            Phase::Idle => match event {
                Event::Start => {
                    self.phase = Phase::Playing(0, Step::Render);
                    Action::Render(0)
                },
                _ => self.finish(Outcome::Failed(PlaybackError::UnexpectedEvent)),
            },
            Phase::Playing(index, Step::Render) => match event {
                Event::Rendered => match self.state.mode {
                    PlaybackMode::StaticFirstFrameOnly => self.finish(Outcome::Completed),
                    _ => {
                        let own = self.frames.frame(index).duration();
                        let delay = match self.delay {
                            Some(delay) => Some(delay),
                            None => own,
                        };
                        self.phase = Phase::Playing(index, Step::Wait);
                        Action::Wait(delay)
                    },
                },
                Event::RenderFailed => self.finish(Outcome::Failed(PlaybackError::Render)),
                _ => self.finish(Outcome::Failed(PlaybackError::UnexpectedEvent)),
            },
            Phase::Playing(index, Step::Wait) => match event {
                Event::Waited { stop_requested } => {
                    let looping = match self.state.mode {
                        PlaybackMode::Looping => true,
                        _ => false,
                    };
                    if stop_requested {
                        self.state = PlaybackState { mode: self.state.mode, cancelled: true };
                        self.phase = Phase::Playing(index, Step::Acknowledge);
                        Action::Acknowledge
                    } else if index + 1 < count || looping {
                        let rows = self.frames.frame(index).rows();
                        self.phase = Phase::Playing(index, Step::Rewind);
                        Action::MoveCursorUp(rows)
                    } else {
                        self.finish(Outcome::Completed)
                    }
                },
                _ => self.finish(Outcome::Failed(PlaybackError::UnexpectedEvent)),
            },
            Phase::Playing(_index, Step::Acknowledge) => match event {
                Event::Acknowledged => self.finish(Outcome::Cancelled),
                Event::AcknowledgeFailed => self.finish(
                    Outcome::Failed(PlaybackError::Acknowledge),
                ),
                _ => self.finish(Outcome::Failed(PlaybackError::UnexpectedEvent)),
            },
            Phase::Playing(index, Step::Rewind) => match event {
                Event::CursorMoved => {
                    let following: usize = if index + 1 < count {
                        index + 1
                    } else {
                        0
                    };
                    self.phase = Phase::Playing(following, Step::Render);
                    Action::Render(following)
                },
                Event::OutputClosed => self.finish(Outcome::OutputClosed),
                Event::CursorFailed => self.finish(Outcome::Failed(PlaybackError::Cursor)),
                _ => self.finish(Outcome::Failed(PlaybackError::UnexpectedEvent)),
            },
            Phase::Stopped(outcome) => Action::Finish(outcome),
        }
    }

    /// Takes a run of reports, one after the other, and returns the answers,
    /// one per report.
    pub fn replay(&mut self, events: &[Event]) -> (actions: Vec<Action>)
        ensures
            (final(self)@, actions@) == old(self)@.run(events@),
            final(self)@.wf(),
    {
        proof {
            use_type_invariant(&*self);
        }
        let mut actions: Vec<Action> = Vec::new();
        let mut i: usize = 0;
        while i < events.len()
            invariant
                i <= events@.len(),
                self@.wf(),
                (self@, actions@) == old(self)@.run(events@.take(i as int)),
            decreases events@.len() - i,
        {
            let action = self.step(events[i]);
            proof {
                assert(events@.take(i + 1).drop_last() == events@.take(i as int));
            }
            actions.push(action);
            i += 1;
        }
        proof {
            assert(events@.take(events@.len() as int) == events@);
        }
        actions
    }
}

} // verus!
