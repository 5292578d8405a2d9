//! Runs of a sequencer, and what holds of them: how often the cursor is
//! moved up in a pass over the frames, and what a stop request leads to.

use crate::playback::{
    frame_rows, resolved_delay, Action, Event, Outcome, Phase, PlaybackMode, SequencerView, Step,
};
use vstd::prelude::*;

verus! {

/// The number of frames rendered in a run of actions.
pub open spec fn renders(actions: Seq<Action>) -> nat
    decreases actions.len(),
{
    if actions.len() == 0 {
        0
    } else {
        renders(actions.drop_last()) + if actions.last() is Render {
            1nat
        } else {
            0nat
        }
    }
}

/// The number of upward cursor movements in a run of actions.
pub open spec fn rewinds(actions: Seq<Action>) -> nat
    decreases actions.len(),
{
    if actions.len() == 0 {
        0
    } else {
        rewinds(actions.drop_last()) + if actions.last() is MoveCursorUp {
            1nat
        } else {
            0nat
        }
    }
}

/// The number of acknowledgments in a run of actions.
pub open spec fn acknowledgments(actions: Seq<Action>) -> nat
    decreases actions.len(),
{
    if actions.len() == 0 {
        0
    } else {
        acknowledgments(actions.drop_last()) + if actions.last() == Action::Acknowledge {
            1nat
        } else {
            0nat
        }
    }
}

/// The reports of one frame that is shown undisturbed: it was rendered, the
/// delay passed with no stop request, the cursor was moved.
pub open spec fn quiet_frame() -> Seq<Event> {
    seq![Event::Rendered, Event::Waited { stop_requested: false }, Event::CursorMoved]
}

/// The reports of `count` frames shown undisturbed, one after the other.
pub open spec fn quiet_frames(count: nat) -> Seq<Event>
    decreases count,
{
    if count == 0 {
        Seq::empty()
    } else {
        quiet_frames((count - 1) as nat) + quiet_frame()
    }
}

/// The reports of the last frame of a single pass: it was rendered and the
/// delay passed with no stop request.
pub open spec fn quiet_last_frame() -> Seq<Event> {
    seq![Event::Rendered, Event::Waited { stop_requested: false }]
}

/// A step keeps a sequencer well formed and changes neither its frames, its
/// global delay nor its mode.
pub proof fn lemma_next_keeps(s: SequencerView, event: Event)
    requires
        s.wf(),
    ensures
        s.next(event).0.wf(),
        s.next(event).0.frames == s.frames,
        s.next(event).0.delay == s.delay,
        s.next(event).0.state.mode == s.state.mode,
{
}

/// A run answers each event with one action, keeps a sequencer well formed
/// and changes neither its frames, its global delay nor its mode.
pub proof fn lemma_run_keeps(s: SequencerView, events: Seq<Event>)
    requires
        s.wf(),
    ensures
        s.run(events).1.len() == events.len(),
        s.run(events).0.wf(),
        s.run(events).0.frames == s.frames,
        s.run(events).0.delay == s.delay,
        s.run(events).0.state.mode == s.state.mode,
    decreases events.len(),
{
    if events.len() > 0 {
        lemma_run_keeps(s, events.drop_last());
        lemma_next_keeps(s.run(events.drop_last()).0, events.last());
    }
}

/// A run answers each event with one action.
pub proof fn lemma_run_len(s: SequencerView, events: Seq<Event>)
    ensures
        s.run(events).1.len() == events.len(),
    decreases events.len(),
{
    if events.len() > 0 {
        lemma_run_len(s, events.drop_last());
    }
}

/// A run over one more event is the run so far, then one step.
pub proof fn lemma_run_push(s: SequencerView, events: Seq<Event>, event: Event)
    ensures
        s.run(events.push(event)).0 == s.run(events).0.next(event).0,
        s.run(events.push(event)).1 == s.run(events).1.push(s.run(events).0.next(event).1),
{
    assert(events.push(event).drop_last() == events);
}

/// A run over two runs of events, one after the other, is the first run,
/// then the second run from where the first ended.
pub proof fn lemma_run_split(s: SequencerView, first: Seq<Event>, second: Seq<Event>)
    ensures
        s.run(first + second).0 == s.run(first).0.run(second).0,
        s.run(first + second).1 == s.run(first).1 + s.run(first).0.run(second).1,
    decreases second.len(),
{
    if second.len() == 0 {
        assert(first + second == first);
        assert(s.run(first).1 + Seq::<Action>::empty() == s.run(first).1);
    } else {
        lemma_run_split(s, first, second.drop_last());
        assert((first + second).drop_last() == first + second.drop_last());
        let mid = s.run(first).0.run(second.drop_last());
        let action = mid.0.next(second.last()).1;
        assert((s.run(first).1 + mid.1).push(action) == s.run(first).1 + mid.1.push(action));
    }
}

/// A prefix of a run is the run over the prefix of the events.
pub proof fn lemma_run_prefix(s: SequencerView, events: Seq<Event>, k: int)
    requires
        0 <= k <= events.len(),
    ensures
        s.run(events).1.len() == events.len(),
        s.run(events.take(k)).1 == s.run(events).1.take(k),
        s.run(events).0 == s.run(events.take(k)).0.run(events.skip(k)).0,
{
    lemma_run_len(s, events);
    lemma_run_len(s, events.take(k));
    lemma_run_split(s, events.take(k), events.skip(k));
    assert(events.take(k) + events.skip(k) == events);
    assert((s.run(events.take(k)).1 + s.run(events.take(k)).0.run(events.skip(k)).1).take(k)
        == s.run(events.take(k)).1);
}

/// Stopped is final: whatever is reported to a stopped sequencer, it stays
/// as it is and answers that it has finished.
pub proof fn lemma_stopped_is_final(s: SequencerView, events: Seq<Event>)
    requires
        s.phase is Stopped,
    ensures
        s.run(events).0 == s,
        forall|j: int| 0 <= j < events.len() ==> s.run(events).1[j] == Action::Finish(s.phase->Stopped_0),
    decreases events.len(),
{
    lemma_run_len(s, events);
    if events.len() > 0 {
        lemma_stopped_is_final(s, events.drop_last());
        lemma_run_len(s, events.drop_last());
    }
}

/// From the moment an acknowledgment is due, every answer is that playback
/// has finished.
proof fn lemma_after_acknowledge(s: SequencerView, events: Seq<Event>)
    requires
        s.phase matches Phase::Playing(_, Step::Acknowledge),
    ensures
        events.len() > 0 ==> s.run(events).0.phase is Stopped,
        forall|j: int| 0 <= j < events.len() ==> s.run(events).1[j] is Finish,
    decreases events.len(),
{
    lemma_run_len(s, events);
    if events.len() > 0 {
        lemma_after_acknowledge(s, events.drop_last());
        lemma_run_len(s, events.drop_last());
    }
}

/// While a sequencer still renders, waits or rewinds, it has sent no
/// acknowledgment.
proof fn lemma_no_acknowledgment_yet(s: SequencerView, events: Seq<Event>)
    requires
        s.run(events).0.phase is Idle || (s.run(events).0.phase matches Phase::Playing(_, step)
            && step != Step::Acknowledge),
    ensures
        forall|j: int| 0 <= j < events.len() ==> s.run(events).1[j] != Action::Acknowledge,
    decreases events.len(),
{
    lemma_run_len(s, events);
    if events.len() > 0 {
        lemma_run_len(s, events.drop_last());
        lemma_no_acknowledgment_yet(s, events.drop_last());
    }
}

/// A run of actions of which exactly the one at `k` is an acknowledgment
/// holds one acknowledgment.
proof fn lemma_single_acknowledgment(actions: Seq<Action>, k: int)
    requires
        0 <= k < actions.len(),
        actions[k] == Action::Acknowledge,
        forall|j: int| 0 <= j < actions.len() && j != k ==> actions[j] != Action::Acknowledge,
    ensures
        acknowledgments(actions) == 1,
    decreases actions.len(),
{
    if k == actions.len() - 1 {
        lemma_no_acknowledgments(actions.drop_last());
    } else {
        lemma_single_acknowledgment(actions.drop_last(), k);
    }
}

/// A run of actions without an acknowledgment holds none.
proof fn lemma_no_acknowledgments(actions: Seq<Action>)
    requires
        forall|j: int| 0 <= j < actions.len() ==> actions[j] != Action::Acknowledge,
    ensures
        acknowledgments(actions) == 0,
    decreases actions.len(),
{
    if actions.len() > 0 {
        lemma_no_acknowledgments(actions.drop_last());
    }
}

/// Cancellation. Let a stop request be reported at some point of a run, in
/// answer to a wait. Then the sequencer answers with an acknowledgment, it
/// marks the playback as cancelled, and whatever is reported afterwards it
/// only answers that playback has finished: no further frame is rendered,
/// and in the whole run exactly one acknowledgment is sent.
pub proof fn lemma_cancellation(s: SequencerView, events: Seq<Event>, k: int)
    requires
        0 <= k < events.len(),
        s.run(events.take(k)).0.phase matches Phase::Playing(_, Step::Wait),
        events[k] == (Event::Waited { stop_requested: true }),
    ensures
        s.run(events).1.len() == events.len(),
        s.run(events).1[k] == Action::Acknowledge,
        s.run(events).0.state.cancelled,
        forall|j: int| k < j < events.len() ==> s.run(events).1[j] is Finish,
        forall|j: int| 0 <= j < k ==> s.run(events).1[j] != Action::Acknowledge,
        acknowledgments(s.run(events).1) == 1,
{
    let head = events.take(k);
    let upto = events.take(k + 1);
    let tail = events.skip(k + 1);
    let waiting = s.run(head).0;
    let due = waiting.next(events[k]).0;
    assert(upto == head.push(events[k]));
    lemma_run_push(s, head, events[k]);
    lemma_run_len(s, head);
    lemma_run_prefix(s, events, k);
    lemma_run_prefix(s, events, k + 1);
    lemma_no_acknowledgment_yet(s, head);
    lemma_after_acknowledge(due, tail);
    lemma_run_split(s, upto, tail);
    lemma_run_len(due, tail);
    assert(upto + tail == events);
    let actions = s.run(events).1;
    assert(actions[k] == s.run(upto).1[k]);
    assert forall|j: int| k < j < events.len() implies actions[j] is Finish by {
        assert(actions[j] == due.run(tail).1[j - (k + 1)]);
    }
    assert forall|j: int| 0 <= j < k implies actions[j] != Action::Acknowledge by {
        assert(actions[j] == s.run(head).1[j]);
    }
    lemma_cancelled_stays(due, tail);
    lemma_single_acknowledgment(actions, k);
}

/// A playback that is marked as cancelled stays so.
pub proof fn lemma_cancelled_stays(s: SequencerView, events: Seq<Event>)
    requires
        s.state.cancelled,
    ensures
        s.run(events).0.state.cancelled,
    decreases events.len(),
{
    if events.len() > 0 {
        lemma_cancelled_stays(s, events.drop_last());
    }
}

/// Counting renders and upward cursor movements over two runs of actions,
/// one after the other, adds up.
pub proof fn lemma_counts_add(first: Seq<Action>, second: Seq<Action>)
    ensures
        renders(first + second) == renders(first) + renders(second),
        rewinds(first + second) == rewinds(first) + rewinds(second),
    decreases second.len(),
{
    if second.len() == 0 {
        assert(first + second == first);
    } else {
        lemma_counts_add(first, second.drop_last());
        assert((first + second).drop_last() == first + second.drop_last());
    }
}

/// Counting renders and upward cursor movements over one more action.
pub proof fn lemma_counts_push(actions: Seq<Action>, action: Action)
    ensures
        renders(actions.push(action)) == renders(actions) + if action is Render {
            1nat
        } else {
            0nat
        },
        rewinds(actions.push(action)) == rewinds(actions) + if action is MoveCursorUp {
            1nat
        } else {
            0nat
        },
{
    assert(actions.push(action).drop_last() == actions);
}

/// Frames are shown in order. One frame shown undisturbed, with another
/// frame to follow: its delay is waited for, the global delay if one is set
/// and else its own; the cursor is moved up by the rows it occupies; then
/// the frame after it is rendered, which after the last frame is the first.
pub proof fn lemma_quiet_frame(s: SequencerView, index: usize)
    requires
        s.wf(),
        s.phase == Phase::Playing(index, Step::Render),
        s.state.mode != PlaybackMode::StaticFirstFrameOnly,
        s.continues_after(index as int),
    ensures
        s.run(quiet_frame()).0 == s.at(Phase::Playing(s.successor(index), Step::Render)),
        s.run(quiet_frame()).1 == seq![
            Action::Wait(resolved_delay(s.frames[index as int], s.delay)),
            Action::MoveCursorUp(frame_rows(s.frames[index as int]) as u32),
            Action::Render(s.successor(index)),
        ],
        renders(s.run(quiet_frame()).1) == 1,
        rewinds(s.run(quiet_frame()).1) == 1,
{
    let none = Seq::<Event>::empty();
    let e0 = Event::Rendered;
    let e1 = Event::Waited { stop_requested: false };
    let e2 = Event::CursorMoved;
    assert(quiet_frame() == none.push(e0).push(e1).push(e2));
    lemma_run_push(s, none, e0);
    lemma_run_push(s, none.push(e0), e1);
    lemma_run_push(s, none.push(e0).push(e1), e2);
    let a0 = Action::Wait(resolved_delay(s.frames[index as int], s.delay));
    let a1 = Action::MoveCursorUp(frame_rows(s.frames[index as int]) as u32);
    let a2 = Action::Render(s.successor(index));
    let blank = Seq::<Action>::empty();
    let actions = s.run(quiet_frame()).1;
    assert(actions == blank.push(a0).push(a1).push(a2));
    lemma_counts_push(blank, a0);
    lemma_counts_push(blank.push(a0), a1);
    lemma_counts_push(blank.push(a0).push(a1), a2);
    assert(actions == seq![a0, a1, a2]);
}

/// The first `count` frames of a pass shown undisturbed, each with another
/// frame to follow: each is rendered and rewound once.
proof fn lemma_quiet_frames(s: SequencerView, count: nat)
    requires
        s.wf(),
        s.phase == Phase::Playing(0, Step::Render),
        s.state.mode != PlaybackMode::StaticFirstFrameOnly,
        count <= s.frames.len(),
        count == s.frames.len() ==> s.state.mode == PlaybackMode::Looping,
    ensures
        s.run(quiet_frames(count)).0 == s.at(
            Phase::Playing(
                if count < s.frames.len() {
                    count as usize
                } else {
                    0
                },
                Step::Render,
            ),
        ),
        renders(s.run(quiet_frames(count)).1) == count,
        rewinds(s.run(quiet_frames(count)).1) == count,
    decreases count,
{
    if count == 0 {
        assert(s.at(s.phase) == s);
    } else {
        let shown = (count - 1) as nat;
        lemma_quiet_frames(s, shown);
        let mid = s.run(quiet_frames(shown)).0;
        lemma_quiet_frame(mid, shown as usize);
        lemma_run_split(s, quiet_frames(shown), quiet_frame());
        lemma_counts_add(s.run(quiet_frames(shown)).1, mid.run(quiet_frame()).1);
    }
}

/// A run that begins with `Start` is the first render, then the run over
/// the other events from the first frame.
proof fn lemma_started(s: SequencerView, events: Seq<Event>)
    requires
        s.phase is Idle,
    ensures
        s.run(seq![Event::Start] + events).0 == s.at(Phase::Playing(0, Step::Render)).run(events).0,
        s.run(seq![Event::Start] + events).1 == seq![Action::Render(0)] + s.at(
            Phase::Playing(0, Step::Render),
        ).run(events).1,
        renders(seq![Action::Render(0)]) == 1,
        rewinds(seq![Action::Render(0)]) == 0,
{
    let none = Seq::<Event>::empty();
    assert(seq![Event::Start] == none.push(Event::Start));
    lemma_run_push(s, none, Event::Start);
    lemma_run_split(s, seq![Event::Start], events);
    let first = seq![Action::Render(0)];
    assert(first == Seq::<Action>::empty().push(Action::Render(0)));
    lemma_counts_push(Seq::<Action>::empty(), Action::Render(0));
}

/// Rewinds when looping. An idle sequencer over N frames in looping mode is
/// started and shows all N frames undisturbed. Then the cursor was moved up
/// N times, once after every frame, and the sequencer is about to show the
/// first frame again: N + 1 renders were asked for.
pub proof fn lemma_looping_pass(s: SequencerView)
    requires
        s.wf(),
        s.phase is Idle,
        s.state.mode == PlaybackMode::Looping,
    ensures
        ({
            let (after, actions) = s.run(seq![Event::Start] + quiet_frames(s.frames.len()));
            &&& rewinds(actions) == s.frames.len()
            &&& renders(actions) == s.frames.len() + 1
            &&& after == s.at(Phase::Playing(0, Step::Render))
        }),
{
    let begun = s.at(Phase::Playing(0, Step::Render));
    let events = quiet_frames(s.frames.len());
    lemma_started(s, events);
    lemma_quiet_frames(begun, s.frames.len());
    lemma_counts_add(seq![Action::Render(0)], begun.run(events).1);
}

/// Rewinds when playing once. An idle sequencer over N frames in play-once
/// mode is started and shows all N frames undisturbed. Then N frames were
/// rendered, the cursor was moved up N - 1 times, not after the last frame,
/// and playback has stopped as completed.
pub proof fn lemma_single_pass(s: SequencerView)
    requires
        s.wf(),
        s.phase is Idle,
        s.state.mode == PlaybackMode::PlayOnce,
    ensures
        ({
            let (after, actions) = s.run(
                seq![Event::Start] + (quiet_frames((s.frames.len() - 1) as nat)
                    + quiet_last_frame()),
            );
            &&& renders(actions) == s.frames.len()
            &&& rewinds(actions) == s.frames.len() - 1
            &&& after == s.at(Phase::Stopped(Outcome::Completed))
            &&& actions.last() == Action::Finish(Outcome::Completed)
        }),
{
    let begun = s.at(Phase::Playing(0, Step::Render));
    let shown = (s.frames.len() - 1) as nat;
    let events = quiet_frames(shown) + quiet_last_frame();
    lemma_started(s, events);
    lemma_quiet_frames(begun, shown);
    lemma_run_split(begun, quiet_frames(shown), quiet_last_frame());
    let last = begun.run(quiet_frames(shown)).0;
    let none = Seq::<Event>::empty();
    let e0 = Event::Rendered;
    let e1 = Event::Waited { stop_requested: false };
    assert(quiet_last_frame() == none.push(e0).push(e1));
    lemma_run_push(last, none, e0);
    lemma_run_push(last, none.push(e0), e1);
    let a0 = Action::Wait(resolved_delay(s.frames[shown as int], s.delay));
    let a1 = Action::Finish(Outcome::Completed);
    let blank = Seq::<Action>::empty();
    let tail = last.run(quiet_last_frame()).1;
    assert(tail == blank.push(a0).push(a1));
    lemma_counts_push(blank, a0);
    lemma_counts_push(blank.push(a0), a1);
    lemma_counts_add(begun.run(quiet_frames(shown)).1, tail);
    lemma_counts_add(seq![Action::Render(0)], begun.run(events).1);
}

/// A static playback: after the first frame is rendered playback has
/// stopped as completed, with no delay and no cursor movement.
pub proof fn lemma_static_playback(s: SequencerView)
    requires
        s.wf(),
        s.phase is Idle,
        s.state.mode == PlaybackMode::StaticFirstFrameOnly,
    ensures
        s.run(seq![Event::Start, Event::Rendered]).1 == seq![
            Action::Render(0),
            Action::Finish(Outcome::Completed),
        ],
        s.run(seq![Event::Start, Event::Rendered]).0 == s.at(Phase::Stopped(Outcome::Completed)),
{
    let none = Seq::<Event>::empty();
    assert(seq![Event::Start, Event::Rendered] == none.push(Event::Start).push(Event::Rendered));
    lemma_run_push(s, none, Event::Start);
    lemma_run_push(s, none.push(Event::Start), Event::Rendered);
    assert(Seq::<Action>::empty().push(Action::Render(0)).push(Action::Finish(Outcome::Completed))
        == seq![Action::Render(0), Action::Finish(Outcome::Completed)]);
}

} // verus!
