//! The cancellation channel: a two-way handoff between whoever asks a
//! playback to stop and the loop that plays.
//!
//! The asking side sends a stop request and waits for an answer. The
//! playing side looks for a request at its check points; once it has seen
//! one it stops and sends an acknowledgment, a single one. When that has
//! arrived the asking side cleans the terminal up, and then it ends the
//! process. Where the playing side reaches no check point, the wait runs
//! out, and the asking side cleans up and ends the process all the same.
//!
//! Both sides are state machines. What needs waiting or writing is left to
//! the caller, who reports how it went.

use std::sync::mpsc::{Receiver, Sender};
use vstd::prelude::*;

verus! {

#[verifier::external_type_specification]
#[verifier::external_body]
#[verifier::reject_recursive_types(T)]
pub struct ExSender<T>(Sender<T>);

#[verifier::external_type_specification]
#[verifier::external_body]
#[verifier::reject_recursive_types(T)]
pub struct ExReceiver<T>(Receiver<T>);

/// Calls `std::sync::mpsc::channel`. Nothing is claimed of the two ends.
#[verifier::external_body]
fn new_channel() -> (ends: (Sender<bool>, Receiver<bool>)) {
    std::sync::mpsc::channel()
}

/// Calls `Sender::send` with `message` and tells whether the message was
/// taken. That depends on the other end: nothing is claimed of the result.
#[verifier::external_body]
fn send_signal(sender: &Sender<bool>, message: bool) -> (sent: bool) {
    sender.send(message).is_ok()
}

/// Calls `Receiver::try_recv`, which does not wait, and tells whether a
/// message was there. That depends on the other end: nothing is claimed of
/// the result.
#[verifier::external_body]
fn signal_pending(receiver: &Receiver<bool>) -> (pending: bool) {
    receiver.try_recv().is_ok()
}

/// Where the handoff stands, as the playing side knows it.
#[derive(Clone, Copy, Debug, PartialEq, Eq, Structural)]
pub enum Handshake {
    /// No stop request has been seen.
    Open,
    /// A stop request has been seen and is not yet acknowledged.
    StopRequested,
    /// The stop request has been acknowledged.
    Acknowledged,
    /// The acknowledgment could not be sent.
    Broken,
}

/// What went wrong on the playing side.
#[derive(Clone, Copy, Debug, PartialEq, Eq, Structural)]
pub enum ChannelError {
    /// The acknowledgment could not be sent.
    AcknowledgmentNotSent,
    /// There is no stop request to acknowledge.
    NothingToAcknowledge,
}

impl ChannelError {
    /// The failure in words.
    pub fn message(self) -> (message: &'static str)
        ensures
            message@ == match self {
                ChannelError::AcknowledgmentNotSent => "Could not send signal to clean up."@,
                ChannelError::NothingToAcknowledge => "No stop signal to acknowledge."@,
            },
    {
        match self {
            ChannelError::AcknowledgmentNotSent => "Could not send signal to clean up.",
            ChannelError::NothingToAcknowledge => "No stop signal to acknowledge.",
        }
    }
}

/// The handshake after the playing side has looked for a stop request and
/// found one or not: an open handshake turns to `StopRequested` on a
/// request; any other is past that point and stays.
pub open spec fn after_look(handshake: Handshake, pending: bool) -> Handshake {
    if handshake == Handshake::Open && pending {
        Handshake::StopRequested
    } else {
        handshake
    }
}

/// The handshake after an acknowledgment was asked for, where `sent` tells
/// whether the message went out: only a requested stop is acknowledged,
/// and only once.
pub open spec fn after_acknowledge(handshake: Handshake, sent: bool) -> Handshake {
    if handshake == Handshake::StopRequested {
        if sent {
            Handshake::Acknowledged
        } else {
            Handshake::Broken
        }
    } else {
        handshake
    }
}

/// What the playing side is told when it asks to acknowledge.
pub open spec fn acknowledge_result(handshake: Handshake, sent: bool) -> Result<(), ChannelError> {
    match handshake {
        Handshake::Open => Err(ChannelError::NothingToAcknowledge),
        Handshake::StopRequested => if sent {
            Ok(())
        } else {
            Err(ChannelError::AcknowledgmentNotSent)
        },
        Handshake::Acknowledged => Ok(()),
        Handshake::Broken => Err(ChannelError::AcknowledgmentNotSent),
    }
}

/// The playing side's end of the channel.
pub struct CancellationChannel {
    requests: Receiver<bool>,
    acknowledgments: Sender<bool>,
    handshake: Handshake,
}

impl CancellationChannel {
    /// Where the handoff stands.
    pub closed spec fn handshake(&self) -> Handshake {
        self.handshake
    }

    /// Where the handoff stands.
    pub fn state(&self) -> (handshake: Handshake)
        ensures
            handshake == self.handshake(),
    {
        self.handshake
    }

    /// Takes note of whether a stop request was there. Returns whether a
    /// stop has been requested, now or earlier.
    pub fn note_request(&mut self, pending: bool) -> (stop: bool)
        ensures
            final(self).handshake() == after_look(old(self).handshake(), pending),
            stop == (final(self).handshake() != Handshake::Open),
    {
        match self.handshake {
            Handshake::Open => {
                if pending {
                    self.handshake = Handshake::StopRequested;
                }
                pending
            },
            _ => true,
        }
    }

    /// Looks for a stop request, at a point where the playing side may stop.
    /// Returns whether a stop has been requested, now or earlier. While the
    /// handshake is open the channel is asked; past that point it is not.
    pub fn stop_requested(&mut self) -> (stop: bool)
        ensures
            stop == (final(self).handshake() != Handshake::Open),
            final(self).handshake() == old(self).handshake() || (old(self).handshake()
                == Handshake::Open && final(self).handshake() == Handshake::StopRequested),
    {
        let pending = match self.handshake {
            Handshake::Open => signal_pending(&self.requests),
            _ => false,
        };
        self.note_request(pending)
    }

    /// Takes note of how sending the acknowledgment went, and tells the
    /// playing side what came of it.
    pub fn note_acknowledgment(&mut self, sent: bool) -> (result: Result<(), ChannelError>)
        ensures
            final(self).handshake() == after_acknowledge(old(self).handshake(), sent),
            result == acknowledge_result(old(self).handshake(), sent),
    {
        match self.handshake {
            Handshake::Open => Err(ChannelError::NothingToAcknowledge),
            Handshake::StopRequested => {
                if sent {
                    self.handshake = Handshake::Acknowledged;
                    Ok(())
                } else {
                    self.handshake = Handshake::Broken;
                    Err(ChannelError::AcknowledgmentNotSent)
                }
            },
            Handshake::Acknowledged => Ok(()),
            Handshake::Broken => Err(ChannelError::AcknowledgmentNotSent),
        }
    }

    /// Acknowledges the stop request. The acknowledgment is sent only where
    /// a stop was requested and not yet answered, so that at most one ever
    /// goes out; where there is no request to answer, this is an error.
    pub fn acknowledge(&mut self) -> (result: Result<(), ChannelError>)
        ensures
            old(self).handshake() == Handshake::StopRequested ==> {
                ||| final(self).handshake() == Handshake::Acknowledged && result is Ok
                ||| final(self).handshake() == Handshake::Broken && result == Err::<
                    (),
                    ChannelError,
                >(ChannelError::AcknowledgmentNotSent)
            },
            old(self).handshake() != Handshake::StopRequested ==> {
                &&& final(self).handshake() == old(self).handshake()
                &&& result == acknowledge_result(old(self).handshake(), false)
            },
    {
        let sent = match self.handshake {
            Handshake::StopRequested => send_signal(&self.acknowledgments, true),
            _ => false,
        };
        self.note_acknowledgment(sent)
    }
}

/// The longest that the asking side waits for the acknowledgment, in
/// milliseconds.
pub const ACKNOWLEDGMENT_WAIT_MILLIS: u64 = 2000;

/// How cleaning the terminal up went.
#[derive(Clone, Copy, Debug, PartialEq, Eq, Structural)]
pub enum Cleanup {
    Done,
    /// The output's reader has closed it.
    OutputClosed,
    Failed,
}

/// What went wrong on the asking side.
#[derive(Clone, Copy, Debug, PartialEq, Eq, Structural)]
pub enum InterruptError {
    /// The stop request could not be sent.
    StopNotSent,
    /// No acknowledgment can come any more: the playing side's end is gone.
    AcknowledgmentNotReceived,
    /// The terminal could not be cleaned up, for another reason than a
    /// closed output.
    CleanupFailed,
    /// Something was reported that does not answer the last action.
    OutOfOrder,
}

impl InterruptError {
    /// The failure in words.
    pub fn message(self) -> (message: &'static str)
        ensures
            message@ == match self {
                InterruptError::StopNotSent => "Could not send signal to stop drawing."@,
                InterruptError::AcknowledgmentNotReceived => "Could not receive signal to clean up terminal."@,
                InterruptError::CleanupFailed => "Could not clean up the terminal."@,
                InterruptError::OutOfOrder => "The interrupt was handled out of order."@,
            },
    {
        match self {
            InterruptError::StopNotSent => "Could not send signal to stop drawing.",
            InterruptError::AcknowledgmentNotReceived => "Could not receive signal to clean up terminal.",
            InterruptError::CleanupFailed => "Could not clean up the terminal.",
            InterruptError::OutOfOrder => "The interrupt was handled out of order.",
        }
    }
}

/// What the asking side is to do next.
#[derive(Clone, Copy, Debug, PartialEq, Eq, Structural)]
pub enum InterruptAction {
    /// Wait for the acknowledgment, for no longer than
    /// `ACKNOWLEDGMENT_WAIT_MILLIS`, then report `Answered` or `WaitExpired`.
    AwaitAcknowledgment,
    /// Reset the colors and clear the terminal from the cursor down, then
    /// report `Cleaned`.
    CleanUp,
    /// End the process in good order.
    Exit,
    /// Give up with this failure.
    Abort(InterruptError),
}

/// Where the asking side stands.
#[derive(Clone, Copy, Debug, PartialEq, Eq, Structural)]
pub enum InterruptPhase {
    /// No interrupt has come.
    Armed,
    /// The stop request is out, the acknowledgment is waited for.
    Awaiting,
    /// The acknowledgment has come or the wait for it has run out, and the
    /// terminal is being cleaned up.
    Cleaning,
    /// Nothing is left to do but the last action, which is `Exit` or `Abort`.
    Ended(InterruptAction),
}

/// What is reported to the asking side.
#[derive(Clone, Copy, Debug, PartialEq, Eq, Structural)]
pub enum InterruptEvent {
    /// An interrupt has come, and the stop request went out or did not.
    Requested { sent: bool },
    /// The wait is over before its time: an acknowledgment came, or none can
    /// come any more because the playing side's end is gone.
    Answered { acknowledged: bool },
    /// The wait has run out: the playing side has not reached a check point.
    WaitExpired,
    /// The cleanup was tried.
    Cleaned(Cleanup),
}

/// The asking side ended with `action`.
pub open spec fn ended(action: InterruptAction) -> (InterruptPhase, InterruptAction) {
    (InterruptPhase::Ended(action), action)
}

/// The asking side after an event, and the action it answers with.
///
/// * Armed: a request that went out is waited on; one that did not is a
///   failure.
/// * Awaiting: after the acknowledgment the terminal is cleaned up, and so
///   it is once the wait has run out; with the playing side's end gone the
///   asking side gives up and leaves the terminal alone.
/// * Cleaning: after a cleanup that went through, or that met a closed
///   output, the process ends in good order; another failure is given up on.
/// * Ended: the last action is repeated.
/// * What does not answer the last action is a failure.
pub open spec fn interrupt_next(phase: InterruptPhase, event: InterruptEvent) -> (
    InterruptPhase,
    InterruptAction,
) {
    match phase {
        InterruptPhase::Armed => match event {
            InterruptEvent::Requested { sent } => if sent {
                (InterruptPhase::Awaiting, InterruptAction::AwaitAcknowledgment)
            } else {
                ended(InterruptAction::Abort(InterruptError::StopNotSent))
            },
            _ => ended(InterruptAction::Abort(InterruptError::OutOfOrder)),
        },
        InterruptPhase::Awaiting => match event {
            InterruptEvent::Answered { acknowledged } => if acknowledged {
                (InterruptPhase::Cleaning, InterruptAction::CleanUp)
            } else {
                ended(InterruptAction::Abort(InterruptError::AcknowledgmentNotReceived))
            },
            InterruptEvent::WaitExpired => (InterruptPhase::Cleaning, InterruptAction::CleanUp),
            _ => ended(InterruptAction::Abort(InterruptError::OutOfOrder)),
        },
        InterruptPhase::Cleaning => match event {
            InterruptEvent::Cleaned(cleanup) => if cleanup == Cleanup::Failed {
                ended(InterruptAction::Abort(InterruptError::CleanupFailed))
            } else {
                ended(InterruptAction::Exit)
            },
            _ => ended(InterruptAction::Abort(InterruptError::OutOfOrder)),
        },
        InterruptPhase::Ended(action) => (phase, action),
    }
}

/// The asking side after a run of events, and the actions it answered with,
/// one per event.
pub open spec fn interrupt_run(phase: InterruptPhase, events: Seq<InterruptEvent>) -> (
    InterruptPhase,
    Seq<InterruptAction>,
)
    decreases events.len(),
{
    if events.len() == 0 {
        (phase, Seq::empty())
    } else {
        let (before, actions) = interrupt_run(phase, events.drop_last());
        let (after, action) = interrupt_next(before, events.last());
        (after, actions.push(action))
    }
}

/// The asking side's end of the channel.
pub struct InterruptHandle {
    requests: Sender<bool>,
    acknowledgments: Receiver<bool>,
    phase: InterruptPhase,
}

impl InterruptHandle {
    /// Where the asking side stands.
    pub closed spec fn phase(&self) -> InterruptPhase {
        self.phase
    }

    /// Where the asking side stands.
    pub fn state(&self) -> (phase: InterruptPhase)
        ensures
            phase == self.phase(),
    {
        self.phase
    }

    /// The end on which the acknowledgment arrives, for the caller to wait
    /// on: the receiving end that this handle was made with.
    pub fn acknowledgments(&self) -> (receiver: &Receiver<bool>)
        ensures
            *receiver == self.acknowledgment_end(),
    {
        &self.acknowledgments
    }

    /// The receiving end that this handle was made with.
    pub closed spec fn acknowledgment_end(&self) -> Receiver<bool> {
        self.acknowledgments
    }

    /// Takes a report and answers with what to do next.
    pub fn step(&mut self, event: InterruptEvent) -> (action: InterruptAction)
        ensures
            (final(self).phase(), action) == interrupt_next(old(self).phase(), event),
    {
        let (phase, action) = match self.phase {
            InterruptPhase::Armed => match event {
                InterruptEvent::Requested { sent } => if sent {
                    (InterruptPhase::Awaiting, InterruptAction::AwaitAcknowledgment)
                } else {
                    InterruptHandle::end(InterruptAction::Abort(InterruptError::StopNotSent))
                },
                _ => InterruptHandle::end(InterruptAction::Abort(InterruptError::OutOfOrder)),
            },
            InterruptPhase::Awaiting => match event {
                InterruptEvent::Answered { acknowledged } => if acknowledged {
                    (InterruptPhase::Cleaning, InterruptAction::CleanUp)
                } else {
                    InterruptHandle::end(
                        InterruptAction::Abort(InterruptError::AcknowledgmentNotReceived),
                    )
                },
                InterruptEvent::WaitExpired => (InterruptPhase::Cleaning, InterruptAction::CleanUp),
                _ => InterruptHandle::end(InterruptAction::Abort(InterruptError::OutOfOrder)),
            },
            InterruptPhase::Cleaning => match event {
                InterruptEvent::Cleaned(cleanup) => match cleanup {
                    Cleanup::Failed => InterruptHandle::end(
                        InterruptAction::Abort(InterruptError::CleanupFailed),
                    ),
                    _ => InterruptHandle::end(InterruptAction::Exit),
                },
                _ => InterruptHandle::end(InterruptAction::Abort(InterruptError::OutOfOrder)),
            },
            InterruptPhase::Ended(action) => (self.phase, action),
        };
        self.phase = phase;
        action
    }

    fn end(action: InterruptAction) -> (result: (InterruptPhase, InterruptAction))
        ensures
            result == ended(action),
    {
        (InterruptPhase::Ended(action), action)
    }

    /// Handles an interrupt: while armed, sends the stop request, and
    /// answers with the wait for the acknowledgment if the request went
    /// out. An interrupt that comes later sends nothing.
    pub fn request_stop(&mut self) -> (action: InterruptAction)
        ensures
            old(self).phase() == InterruptPhase::Armed ==> {
                ||| (final(self).phase(), action) == interrupt_next(
                    InterruptPhase::Armed,
                    InterruptEvent::Requested { sent: true },
                )
                ||| (final(self).phase(), action) == interrupt_next(
                    InterruptPhase::Armed,
                    InterruptEvent::Requested { sent: false },
                )
            },
            old(self).phase() != InterruptPhase::Armed ==> (final(self).phase(), action)
                == interrupt_next(old(self).phase(), InterruptEvent::Requested { sent: false }),
    {
        let sent = match self.phase {
            InterruptPhase::Armed => send_signal(&self.requests, true),
            _ => false,
        };
        self.step(InterruptEvent::Requested { sent })
    }
}

/// A fresh channel: the playing side's end, with the handshake open, and
/// the asking side's end, armed.
pub fn channel() -> (ends: (CancellationChannel, InterruptHandle))
    ensures
        ends.0.handshake() == Handshake::Open,
        ends.1.phase() == InterruptPhase::Armed,
{
    let (request_sender, request_receiver) = new_channel();
    let (acknowledgment_sender, acknowledgment_receiver) = new_channel();
    (
        CancellationChannel {
            requests: request_receiver,
            acknowledgments: acknowledgment_sender,
            handshake: Handshake::Open,
        },
        InterruptHandle {
            requests: request_sender,
            acknowledgments: acknowledgment_receiver,
            phase: InterruptPhase::Armed,
        },
    )
}

/// A run of the asking side answers each event with one action.
pub proof fn lemma_interrupt_run_len(phase: InterruptPhase, events: Seq<InterruptEvent>)
    ensures
        interrupt_run(phase, events).1.len() == events.len(),
    decreases events.len(),
{
    if events.len() > 0 {
        lemma_interrupt_run_len(phase, events.drop_last());
    }
}

/// The events begin with a stop request that went out and a wait that ended
/// with an acknowledgment or ran out.
pub open spec fn waited_first(events: Seq<InterruptEvent>) -> bool {
    &&& events.len() >= 2
    &&& events[0] == (InterruptEvent::Requested { sent: true })
    &&& events[1] == (InterruptEvent::Answered { acknowledged: true }) || events[1]
        == InterruptEvent::WaitExpired
}

/// The events begin with a stop request that went out, a wait that ended
/// with an acknowledgment or ran out, and a cleanup that did not fail.
pub open spec fn cleaned_first(events: Seq<InterruptEvent>) -> bool {
    &&& events.len() >= 3
    &&& waited_first(events)
    &&& events[2] matches InterruptEvent::Cleaned(cleanup) && cleanup != Cleanup::Failed
}

/// Where the asking side stands after a run from the armed state, told from
/// the first events of the run.
proof fn lemma_interrupt_phases(events: Seq<InterruptEvent>)
    ensures
        ({
            let phase = interrupt_run(InterruptPhase::Armed, events).0;
            &&& phase == InterruptPhase::Armed ==> events.len() == 0
            &&& phase == InterruptPhase::Awaiting ==> {
                &&& events.len() == 1
                &&& events[0] == (InterruptEvent::Requested { sent: true })
            }
            &&& phase == InterruptPhase::Cleaning ==> events.len() == 2 && waited_first(events)
            &&& phase == InterruptPhase::Ended(InterruptAction::Exit) ==> cleaned_first(events)
            &&& phase != InterruptPhase::Ended(InterruptAction::AwaitAcknowledgment)
            &&& phase != InterruptPhase::Ended(InterruptAction::CleanUp)
        }),
    decreases events.len(),
{
    if events.len() > 0 {
        lemma_interrupt_phases(events.drop_last());
    }
}

/// The asking side touches the terminal only once its wait is over. In any
/// run from the armed state, a cleanup is asked for only in answer to an
/// acknowledgment that came or to a wait that ran out, either of which
/// answers a stop request that went out; and the process is ended in good
/// order only after a cleanup that did not fail.
pub proof fn lemma_cleanup_follows_wait(events: Seq<InterruptEvent>, at: int)
    requires
        0 <= at < events.len(),
    ensures
        interrupt_run(InterruptPhase::Armed, events).1.len() == events.len(),
        interrupt_run(InterruptPhase::Armed, events).1[at] == InterruptAction::CleanUp ==> at == 1
            && waited_first(events),
        interrupt_run(InterruptPhase::Armed, events).1[at] == InterruptAction::Exit ==> at >= 2
            && cleaned_first(events),
    decreases events.len(),
{
    let head = events.drop_last();
    lemma_interrupt_run_len(InterruptPhase::Armed, events);
    lemma_interrupt_run_len(InterruptPhase::Armed, head);
    lemma_interrupt_phases(head);
    if at < events.len() - 1 {
        lemma_cleanup_follows_wait(head, at);
    }
}

/// A run of the asking side over one more event is the run so far, then one
/// step.
proof fn lemma_interrupt_run_push(
    phase: InterruptPhase,
    events: Seq<InterruptEvent>,
    event: InterruptEvent,
)
    ensures
        interrupt_run(phase, events.push(event)).0 == interrupt_next(
            interrupt_run(phase, events).0,
            event,
        ).0,
        interrupt_run(phase, events.push(event)).1 == interrupt_run(phase, events).1.push(
            interrupt_next(interrupt_run(phase, events).0, event).1,
        ),
{
    assert(events.push(event).drop_last() == events);
}

/// An interrupt is seen through even where no acknowledgment comes. Once the
/// stop request is out, whether the acknowledgment comes or the wait for it
/// runs out, the asking side cleans the terminal up, and after a cleanup
/// that did not fail it ends the process in good order.
pub proof fn lemma_interrupt_ends_the_process(wait: InterruptEvent, cleanup: Cleanup)
    requires
        wait == (InterruptEvent::Answered { acknowledged: true }) || wait
            == InterruptEvent::WaitExpired,
        cleanup != Cleanup::Failed,
    ensures
        interrupt_run(
            InterruptPhase::Armed,
            seq![InterruptEvent::Requested { sent: true }, wait, InterruptEvent::Cleaned(cleanup)],
        ) == (
            InterruptPhase::Ended(InterruptAction::Exit),
            seq![
                InterruptAction::AwaitAcknowledgment,
                InterruptAction::CleanUp,
                InterruptAction::Exit,
            ],
        ),
{
    let none = Seq::<InterruptEvent>::empty();
    let sent = InterruptEvent::Requested { sent: true };
    let cleaned = InterruptEvent::Cleaned(cleanup);
    assert(seq![sent, wait, cleaned] == none.push(sent).push(wait).push(cleaned));
    lemma_interrupt_run_push(InterruptPhase::Armed, none, sent);
    lemma_interrupt_run_push(InterruptPhase::Armed, none.push(sent), wait);
    lemma_interrupt_run_push(InterruptPhase::Armed, none.push(sent).push(wait), cleaned);
    let actions = interrupt_run(InterruptPhase::Armed, seq![sent, wait, cleaned]).1;
    assert(actions == seq![
        InterruptAction::AwaitAcknowledgment,
        InterruptAction::CleanUp,
        InterruptAction::Exit,
    ]);
}

} // verus!
