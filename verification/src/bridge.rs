//! The state shared between the worker that captures the pipe's text and the
//! task that polls for it.

use crate::fault::Fault;
use crate::text::{trim, trimmed};
use vstd::prelude::*;

verus! {

/// How far the capture has come.
pub enum Phase {
    /// The worker has not delivered yet.
    Waiting,
    /// The worker has delivered this text and no poll has taken it.
    Captured(Seq<char>),
    /// A poll has taken the text.
    Taken,
}

/// What a poll reports, as a mathematical value.
pub enum Delivery {
    Ready(Seq<char>),
    Pending,
}

/// The shared state as a mathematical value.
pub struct BridgeView<W> {
    pub phase: Phase,
    /// The continuation of the most recent pending poll, if it was not woken yet.
    pub waker: Option<W>,
}

impl<W> BridgeView<W> {
    /// The state before anything has happened.
    pub open spec fn initial() -> Self {
        BridgeView { phase: Phase::Waiting, waker: None }
    }

    /// A continuation is only ever held while the capture is awaited.
    pub open spec fn wf(self) -> bool {
        self.phase is Waiting || self.waker is None
    }

    /// Whether a poll is admissible: the text must not have been taken before.
    pub open spec fn can_poll(self) -> bool {
        !(self.phase is Taken)
    }

    /// What a poll reports: the text once it is captured, and until then that
    /// it is pending.
    pub open spec fn poll_delivery(self) -> Delivery
        recommends
            self.can_poll(),
    {
        match self.phase {
            Phase::Captured(text) => Delivery::Ready(text),
            _ => Delivery::Pending,
        }
    }

    /// The state after a poll that offers `waker`: while the capture is awaited
    /// `waker` takes the place of any continuation left before; once the text is
    /// captured the poll takes it and `waker` is not kept.
    pub open spec fn after_poll(self, waker: W) -> Self
        recommends
            self.can_poll(),
    {
        match self.phase {
            Phase::Waiting => BridgeView { phase: Phase::Waiting, waker: Some(waker) },
            _ => BridgeView { phase: Phase::Taken, waker: self.waker },
        }
    }

    /// The state after the worker has delivered the raw text `raw`.
    pub open spec fn after_complete(self, raw: Seq<char>) -> Self
        recommends
            self.phase is Waiting,
    {
        BridgeView { phase: Phase::Captured(trimmed(raw)), waker: None }
    }
}

/// What a poll reports.
#[derive(Debug, PartialEq, Eq)]
pub enum PollOutcome {
    /// The capture is complete; the poll has taken this text.
    Ready(String),
    /// The capture is not complete; the continuation was registered.
    Pending,
}

impl View for PollOutcome {
    type V = Delivery;

    open spec fn view(&self) -> Delivery {
        match self {
            PollOutcome::Ready(text) => Delivery::Ready(text@),
            PollOutcome::Pending => Delivery::Pending,
        }
    }
}

/// The state shared between the worker and the polling task. `W` is the type of
/// the continuation that a pending poll leaves behind.
pub struct PipeWriteListenState<W> {
    waker: Option<W>,
    complete: bool,
    content: Option<String>,
}

impl<W> View for PipeWriteListenState<W> {
    type V = BridgeView<W>;

    closed spec fn view(&self) -> BridgeView<W> {
        BridgeView {
            phase: if !self.complete {
                Phase::Waiting
            } else {
                match self.content {
                    Some(text) => Phase::Captured(text@),
                    None => Phase::Taken,
                }
            },
            waker: self.waker,
        }
    }
}

impl<W> PipeWriteListenState<W> {
    /// A state in which nothing was captured and nobody waits.
    pub fn new() -> (state: Self)
        ensures
            state@ == BridgeView::<W>::initial(),
    {
        PipeWriteListenState { waker: None, complete: false, content: None }
    }

    /// Polls for the captured text. Once the capture is complete the text is
    /// taken and handed out; before that, `waker` replaces whatever continuation
    /// a previous poll has left.
    pub fn poll(&mut self, waker: W) -> (outcome: PollOutcome)
        requires
            old(self)@.can_poll(),
        ensures
            outcome@ == old(self)@.poll_delivery(),
            final(self)@ == old(self)@.after_poll(waker),
    {
        if self.complete {
            match self.content.take() {
                Some(text) => PollOutcome::Ready(text),
                None => vstd::pervasive::unreached(),
            }
        } else {
            self.waker = Some(waker);
            PollOutcome::Pending
        }
    }

    /// Polls like `poll`, for callers that cannot show that the text was not
    /// taken before: such a poll is answered with `Fault::InvariantViolation`
    /// and changes nothing.
    pub fn try_poll(&mut self, waker: W) -> (outcome: Result<PollOutcome, Fault>)
        ensures
            match outcome {
                Ok(delivery) => old(self)@.can_poll() && delivery@ == old(self)@.poll_delivery()
                    && final(self)@ == old(self)@.after_poll(waker),
                Err(fault) => !old(self)@.can_poll() && fault == Fault::InvariantViolation
                    && final(self)@ == old(self)@,
            },
    {
        if self.is_taken() {
            Err(Fault::InvariantViolation)
        } else {
            Ok(self.poll(waker))
        }
    }

    /// Delivers the raw text that the worker has read: stores it trimmed, marks
    /// the capture complete and hands out the registered continuation, which
    /// the caller is to invoke.
    pub fn complete(&mut self, raw: &str) -> (woken: Option<W>)
        requires
            old(self)@.phase is Waiting,
        ensures
            final(self)@ == old(self)@.after_complete(raw@),
            woken == old(self)@.waker,
    {
        let text = trim(raw);
        let woken = self.waker.take();
        self.complete = true;
        self.content = Some(text);
        woken
    }
}

impl<W> PipeWriteListenState<W> {
    /// Whether the worker has delivered.
    pub fn is_complete(&self) -> (b: bool)
        ensures
            b == !(self@.phase is Waiting),
    {
        self.complete
    }

    /// Whether a poll has taken the text.
    pub fn is_taken(&self) -> (b: bool)
        ensures
            b == (self@.phase is Taken),
    {
        self.complete && self.content.is_none()
    }

    /// Whether a continuation is registered.
    pub fn has_waker(&self) -> (b: bool)
        ensures
            b == (self@.waker is Some),
    {
        self.waker.is_some()
    }
}

/// Something that happens to the shared state.
pub enum BridgeEvent<W> {
    /// The task polls and offers this continuation.
    Poll(W),
    /// The worker delivers this raw text.
    Complete(Seq<char>),
}

impl<W> BridgeView<W> {
    /// The state after one poll for each of `wakers`, in order.
    pub open spec fn after_polls(self, wakers: Seq<W>) -> Self
        decreases wakers.len(),
    {
        if wakers.len() == 0 {
            self
        } else {
            self.after_polls(wakers.drop_last()).after_poll(wakers.last())
        }
    }

    /// Whether `event` is admissible: what `poll` and `complete` require.
    pub open spec fn admits(self, event: BridgeEvent<W>) -> bool {
        match event {
            BridgeEvent::Poll(_) => self.can_poll(),
            BridgeEvent::Complete(_) => self.phase is Waiting,
        }
    }

    /// The state after `event`.
    pub open spec fn after(self, event: BridgeEvent<W>) -> Self {
        match event {
            BridgeEvent::Poll(waker) => self.after_poll(waker),
            BridgeEvent::Complete(raw) => self.after_complete(raw),
        }
    }

    /// The text that `event` hands to the task, if it hands one.
    pub open spec fn handed_out(self, event: BridgeEvent<W>) -> Option<Seq<char>> {
        match event {
            BridgeEvent::Poll(_) => match self.poll_delivery() {
                Delivery::Ready(text) => Some(text),
                Delivery::Pending => None,
            },
            BridgeEvent::Complete(_) => None,
        }
    }

    /// Whether each of `events` is admissible when its turn comes.
    pub open spec fn admits_all(self, events: Seq<BridgeEvent<W>>) -> bool
        decreases events.len(),
    {
        events.len() == 0 || (self.admits(events.first()) && self.after(
            events.first(),
        ).admits_all(events.drop_first()))
    }

    /// The texts that `events` hand to the task, in order.
    pub open spec fn all_handed_out(self, events: Seq<BridgeEvent<W>>) -> Seq<Seq<char>>
        decreases events.len(),
    {
        if events.len() == 0 {
            Seq::empty()
        } else {
            let rest = self.after(events.first()).all_handed_out(events.drop_first());
            match self.handed_out(events.first()) {
                Some(text) => seq![text] + rest,
                None => rest,
            }
        }
    }
}

/// The raw text of the first delivery among `events`, if there is one.
pub open spec fn first_delivered<W>(events: Seq<BridgeEvent<W>>) -> Option<Seq<char>>
    decreases events.len(),
{
    if events.len() == 0 {
        None
    } else {
        match events.first() {
            BridgeEvent::Complete(raw) => Some(raw),
            BridgeEvent::Poll(_) => first_delivered(events.drop_first()),
        }
    }
}

/// The three operations keep a well-formed state well-formed.
pub proof fn lemma_wf_is_kept<W>(state: BridgeView<W>, waker: W, raw: Seq<char>)
    requires
        state.wf(),
    ensures
        BridgeView::<W>::initial().wf(),
        state.after_poll(waker).wf(),
        state.after_complete(raw).wf(),
{
}

/// While the capture is awaited every poll is pending, and the state holds the
/// continuation of the latest poll alone.
pub proof fn lemma_polls_while_waiting<W>(state: BridgeView<W>, wakers: Seq<W>)
    requires
        state.phase is Waiting,
    ensures
        state.after_polls(wakers).phase is Waiting,
        state.after_polls(wakers).poll_delivery() == Delivery::Pending,
        state.after_polls(wakers).waker == if wakers.len() == 0 {
            state.waker
        } else {
            Some(wakers.last())
        },
    decreases wakers.len(),
{
    if wakers.len() > 0 {
        lemma_polls_while_waiting(state, wakers.drop_last());
    }
}

/// Whatever `raw` the worker delivers, and however often the task has polled
/// before with the continuations `wakers`: the delivery hands out the latest
/// continuation and no other, and the next poll resolves to `raw` trimmed.
pub proof fn lemma_handle_resolves_to_trimmed<W>(wakers: Seq<W>, raw: Seq<char>, next: W)
    ensures
        ({
            let polled = BridgeView::<W>::initial().after_polls(wakers);
            let delivered = polled.after_complete(raw);
            &&& polled.phase is Waiting
            &&& polled.waker == if wakers.len() == 0 {
                None
            } else {
                Some(wakers.last())
            }
            &&& delivered.waker is None
            &&& delivered.can_poll()
            &&& delivered.poll_delivery() == Delivery::Ready(trimmed(raw))
            &&& delivered.after_poll(next).phase is Taken
        }),
{
    lemma_polls_while_waiting(BridgeView::<W>::initial(), wakers);
}

/// A poll that reports the text leaves a state in which no poll is admissible
/// and no delivery either.
pub proof fn lemma_taken_once<W>(state: BridgeView<W>, waker: W)
    requires
        state.can_poll(),
        state.poll_delivery() is Ready,
    ensures
        !state.after_poll(waker).can_poll(),
        !(state.after_poll(waker).phase is Waiting),
{
}

/// A pending poll changes nothing but the registered continuation, and a text
/// can only be reported after the worker has delivered it.
pub proof fn lemma_pending_until_delivered<W>(state: BridgeView<W>, waker: W)
    requires
        state.can_poll(),
    ensures
        state.poll_delivery() is Pending <==> state.phase is Waiting,
        state.phase is Waiting ==> state.after_poll(waker) == (BridgeView {
            phase: Phase::Waiting,
            waker: Some(waker),
        }),
{
}

/// Over any run of admissible polls and deliveries, from any state, the task
/// is handed a text at most once. From a state that holds a captured text it
/// is that text; from a state that awaits the capture it is the trimmed text
/// of the first delivery; and once the text is taken nothing is admissible.
pub proof fn lemma_handed_out_at_most_once<W>(state: BridgeView<W>, events: Seq<BridgeEvent<W>>)
    requires
        state.admits_all(events),
    ensures
        state.all_handed_out(events).len() <= 1,
        state.phase is Taken ==> events.len() == 0,
        state.all_handed_out(events).len() == 1 ==> (match state.phase {
            Phase::Captured(text) => state.all_handed_out(events)[0] == text,
            _ => first_delivered(events) matches Some(raw) && state.all_handed_out(events)[0]
                == trimmed(raw),
        }),
    decreases events.len(),
{
    if events.len() > 0 {
        lemma_handed_out_at_most_once(state.after(events.first()), events.drop_first());
    }
}

/// The text is delivered exactly once: over any run of admissible polls and
/// deliveries from the initial state the task is handed nothing, or one text
/// and no more, and that text is what the worker delivered, trimmed.
pub proof fn lemma_exactly_once<W>(events: Seq<BridgeEvent<W>>)
    requires
        BridgeView::<W>::initial().admits_all(events),
    ensures
        ({
            let texts = BridgeView::<W>::initial().all_handed_out(events);
            ||| texts.len() == 0
            ||| first_delivered(events) matches Some(raw) && texts == seq![trimmed(raw)]
        }),
{
    lemma_handed_out_at_most_once(BridgeView::<W>::initial(), events);
    let texts = BridgeView::<W>::initial().all_handed_out(events);
    if texts.len() == 1 {
        assert(texts =~= seq![texts[0]]);
    }
}

} // verus!
