//! Waiting until one descriptor is readable: which call to the notification
//! facility comes next, and when its answer is fatal.
//!
//! The facility is driven in three calls, each made once: create a notification
//! context, register the descriptor for "readable" in it, and block until the
//! facility reports an event. The host makes the calls and reports each
//! status back; nothing is retried and nothing times out.

use crate::text::{decimal, render_decimal};
use vstd::prelude::*;
use vstd::string::*;

verus! {

/// The status with which a call to the facility reports failure.
pub const FAILED: i32 = -1;

/// The number of event slots handed to the blocking wait.
pub const MAX_EVENTS: i32 = 1;

/// The timeout handed to the blocking wait: none, it blocks until an event.
pub const NO_TIMEOUT: i32 = -1;

/// The calls that make up a wait for readiness, in the order they are made.
#[derive(Clone, Copy, Debug, PartialEq, Eq, Structural)]
pub enum Operation {
    CreateContext,
    Register,
    Wait,
}

/// A failed call: which one, and the error code the system gave for it.
#[derive(Clone, Copy, Debug, PartialEq, Eq, Structural)]
pub struct OsFailure {
    pub operation: Operation,
    pub errno: i32,
}

impl Operation {
    /// The name of the system call behind the operation.
    pub open spec fn call_name(self) -> Seq<char> {
        match self {
            Operation::CreateContext => "epoll_create1"@,
            Operation::Register => "epoll_ctl"@,
            Operation::Wait => "epoll_wait"@,
        }
    }

    /// The name of the system call behind the operation.
    pub fn name(&self) -> (name: &'static str)
        ensures
            name@ == self.call_name(),
    {
        match self {
            Operation::CreateContext => "epoll_create1",
            Operation::Register => "epoll_ctl",
            Operation::Wait => "epoll_wait",
        }
    }
}

impl OsFailure {
    /// The diagnostic for the failure: the call that failed and the system's
    /// error code.
    pub open spec fn diagnostic_text(self) -> Seq<char> {
        self.operation.call_name() + " failed: os error "@ + decimal(self.errno as int)
    }

    /// The diagnostic for the failure: the call that failed and the system's
    /// error code.
    pub fn diagnostic(&self) -> (text: String)
        ensures
            text@ == self.diagnostic_text(),
    {
        let mut text = String::from_str(self.operation.name());
        text.append(" failed: os error ");
        let code = render_decimal(self.errno);
        text.append(code.as_str());
        text
    }
}

/// What the host reports of one call: the status it returned, and the
/// system's error code read right after it.
#[derive(Clone, Copy, Debug, PartialEq, Eq, Structural)]
pub struct Reply {
    pub status: i32,
    pub errno: i32,
}

/// What the host is asked to do next.
#[derive(Clone, Copy, Debug, PartialEq, Eq, Structural)]
pub enum Request {
    /// Create a notification context.
    CreateContext,
    /// Register `descriptor` for "readable" events in `context`.
    Register { context: i32, descriptor: i32 },
    /// Block on `context` until an event arrives, with `max_events` event
    /// slots and the timeout `timeout`.
    Wait { context: i32, max_events: i32, timeout: i32 },
}

/// How far a wait for readiness has come.
#[derive(Clone, Copy, Debug, PartialEq, Eq, Structural)]
pub enum Stage {
    /// Nothing was called yet.
    Start,
    /// The context `context` exists; the descriptor is not registered in it.
    ContextOpen { context: i32 },
    /// The descriptor is registered in `context`.
    Registered { context: i32 },
    /// The facility has reported the descriptor readable.
    Readable,
    /// A call has failed.
    Failed(OsFailure),
}

impl Stage {
    /// Whether the wait is over, one way or the other.
    pub open spec fn is_terminal(self) -> bool {
        self is Readable || self is Failed
    }

    /// The call that is due at this stage for `descriptor`.
    pub open spec fn request(self, descriptor: i32) -> Option<Request> {
        match self {
            Stage::Start => Some(Request::CreateContext),
            Stage::ContextOpen { context } => Some(Request::Register { context, descriptor }),
            Stage::Registered { context } => Some(
                Request::Wait { context, max_events: MAX_EVENTS, timeout: NO_TIMEOUT },
            ),
            Stage::Readable => None,
            Stage::Failed(_) => None,
        }
    }

    /// The call whose status is awaited at this stage.
    pub open spec fn operation(self) -> Option<Operation> {
        match self {
            Stage::Start => Some(Operation::CreateContext),
            Stage::ContextOpen { .. } => Some(Operation::Register),
            Stage::Registered { .. } => Some(Operation::Wait),
            Stage::Readable => None,
            Stage::Failed(_) => None,
        }
    }

    /// The stage after the due call was answered with `reply`: a failed call
    /// ends the wait and is recorded with its error code, any other status
    /// leads on to the next call, and the status of the first call is the
    /// context for the two that follow. A wait that is over stays as it is.
    pub open spec fn next(self, reply: Reply) -> Stage {
        match self.operation() {
            None => self,
            Some(operation) => if reply.status == FAILED {
                Stage::Failed(OsFailure { operation, errno: reply.errno })
            } else {
                match self {
                    Stage::Start => Stage::ContextOpen { context: reply.status },
                    Stage::ContextOpen { context } => Stage::Registered { context },
                    _ => Stage::Readable,
                }
            },
        }
    }

    /// The stage after the calls answered by `replies`, in order.
    pub open spec fn run(self, replies: Seq<Reply>) -> Stage
        decreases replies.len(),
    {
        if replies.len() == 0 {
            self
        } else {
            self.next(replies.first()).run(replies.drop_first())
        }
    }

    /// The number of calls that are still to be made if none fails.
    pub open spec fn calls_left(self) -> nat {
        match self {
            Stage::Start => 3,
            Stage::ContextOpen { .. } => 2,
            Stage::Registered { .. } => 1,
            Stage::Readable => 0,
            Stage::Failed(_) => 0,
        }
    }
}

/// A wait for one descriptor to become readable, as a mathematical value.
pub struct ReadinessView {
    pub descriptor: i32,
    pub stage: Stage,
}

/// A wait for one descriptor to become readable.
pub struct ReadinessWait {
    descriptor: i32,
    stage: Stage,
}

impl View for ReadinessWait {
    type V = ReadinessView;

    closed spec fn view(&self) -> ReadinessView {
        ReadinessView { descriptor: self.descriptor, stage: self.stage }
    }
}

impl ReadinessWait {
    /// A wait for `descriptor` on which nothing was called yet.
    pub fn new(descriptor: i32) -> (wait: Self)
        ensures
            wait@ == (ReadinessView { descriptor, stage: Stage::Start }),
    {
        ReadinessWait { descriptor, stage: Stage::Start }
    }

    /// The call that the host is to make next, or `None` when the wait is over.
    pub fn request(&self) -> (request: Option<Request>)
        ensures
            request == self@.stage.request(self@.descriptor),
    {
        match self.stage {
            Stage::Start => Some(Request::CreateContext),
            Stage::ContextOpen { context } => Some(
                Request::Register { context, descriptor: self.descriptor },
            ),
            Stage::Registered { context } => Some(
                Request::Wait { context, max_events: MAX_EVENTS, timeout: NO_TIMEOUT },
            ),
            Stage::Readable => None,
            Stage::Failed(_) => None,
        }
    }

    /// Takes the host's reply to the requested call. A status of `FAILED`
    /// ends the wait in failure; any other status lets it go on to the next
    /// call. Once the wait is over, nothing changes any more.
    pub fn advance(&mut self, reply: Reply)
        ensures
            final(self)@.descriptor == old(self)@.descriptor,
            final(self)@.stage == old(self)@.stage.next(reply),
    {
        let failed = reply.status == FAILED;
        let errno = reply.errno;
        let next = match self.stage {
            Stage::Start => if failed {
                Stage::Failed(OsFailure { operation: Operation::CreateContext, errno })
            } else {
                Stage::ContextOpen { context: reply.status }
            },
            Stage::ContextOpen { context } => if failed {
                Stage::Failed(OsFailure { operation: Operation::Register, errno })
            } else {
                Stage::Registered { context }
            },
            Stage::Registered { context } => if failed {
                Stage::Failed(OsFailure { operation: Operation::Wait, errno })
            } else {
                Stage::Readable
            },
            Stage::Readable => Stage::Readable,
            Stage::Failed(failure) => Stage::Failed(failure),
        };
        self.stage = next;
    }

    /// The stage that the wait has reached.
    pub fn stage(&self) -> (stage: Stage)
        ensures
            stage == self@.stage,
    {
        self.stage
    }

    /// Whether the descriptor was reported readable, so that reading may begin.
    pub fn is_readable(&self) -> (b: bool)
        ensures
            b == (self@.stage is Readable),
    {
        match self.stage {
            Stage::Readable => true,
            _ => false,
        }
    }

    /// The failure that ended the wait, if one did.
    pub fn failure(&self) -> (failure: Option<OsFailure>)
        ensures
            failure == (match self@.stage {
                Stage::Failed(f) => Some(f),
                _ => None,
            }),
    {
        match self.stage {
            Stage::Failed(f) => Some(f),
            _ => None,
        }
    }
}

/// Once the wait is over nothing is asked for and no reply changes it: a
/// failed call is not tried again, and a readable descriptor is not waited
/// for again.
pub proof fn lemma_terminal_is_final(stage: Stage, descriptor: i32, replies: Seq<Reply>)
    requires
        stage.is_terminal(),
    ensures
        stage.request(descriptor) is None,
        stage.run(replies) == stage,
    decreases replies.len(),
{
    if replies.len() > 0 {
        lemma_terminal_is_final(stage, descriptor, replies.drop_first());
    }
}

/// Something is asked for exactly as long as the wait is not over, and it is
/// the call whose status is awaited.
pub proof fn lemma_request_until_terminal(stage: Stage, descriptor: i32)
    ensures
        stage.request(descriptor) is Some <==> !stage.is_terminal(),
        stage.operation() is Some <==> !stage.is_terminal(),
        stage.request(descriptor) matches Some(request) ==> (match request {
            Request::CreateContext => stage.operation() == Some(Operation::CreateContext),
            Request::Register { .. } => stage.operation() == Some(Operation::Register),
            Request::Wait { .. } => stage.operation() == Some(Operation::Wait),
        }),
{
}

/// Every reply brings the wait one call nearer to its end or ends it at once;
/// a failure is charged to the call that was due, with the error code that
/// came with it.
pub proof fn lemma_reply_makes_progress(stage: Stage, reply: Reply)
    requires
        !stage.is_terminal(),
    ensures
        ({
            let next = stage.next(reply);
            if reply.status == FAILED {
                next == Stage::Failed(
                    OsFailure { operation: stage.operation().unwrap(), errno: reply.errno },
                )
            } else {
                next.calls_left() + 1 == stage.calls_left() && !(next is Failed)
            }
        }),
{
}

/// The whole wait: three calls, each made once and in this order. The
/// descriptor is registered in the context that the first call returned, and
/// the blocking wait is on that context, with one event slot and no timeout.
/// The descriptor counts as readable if and only if none of the three calls
/// has failed; otherwise the first failed call ends the wait.
pub proof fn lemma_wait_in_three_calls(
    descriptor: i32,
    created: Reply,
    registered: Reply,
    waited: Reply,
)
    ensures
        ({
            let start = Stage::Start;
            let opened = start.run(seq![created]);
            let armed = start.run(seq![created, registered]);
            let done = start.run(seq![created, registered, waited]);
            &&& start.request(descriptor) == Some(Request::CreateContext)
            &&& created.status != FAILED ==> opened.request(descriptor) == Some(
                Request::Register { context: created.status, descriptor },
            )
            &&& created.status != FAILED && registered.status != FAILED ==> armed.request(
                descriptor,
            ) == Some(
                Request::Wait {
                    context: created.status,
                    max_events: MAX_EVENTS,
                    timeout: NO_TIMEOUT,
                },
            )
            &&& done == if created.status == FAILED {
                Stage::Failed(
                    OsFailure { operation: Operation::CreateContext, errno: created.errno },
                )
            } else if registered.status == FAILED {
                Stage::Failed(OsFailure { operation: Operation::Register, errno: registered.errno })
            } else if waited.status == FAILED {
                Stage::Failed(OsFailure { operation: Operation::Wait, errno: waited.errno })
            } else {
                Stage::Readable
            }
            &&& done.is_terminal()
        }),
{
    reveal_with_fuel(Stage::run, 4);
    assert(seq![created].drop_first() =~= Seq::<Reply>::empty());
    assert(seq![created, registered].drop_first() =~= seq![registered]);
    assert(seq![registered].drop_first() =~= Seq::<Reply>::empty());
    assert(seq![created, registered, waited].drop_first() =~= seq![registered, waited]);
    assert(seq![registered, waited].drop_first() =~= seq![waited]);
    assert(seq![waited].drop_first() =~= Seq::<Reply>::empty());
}

} // verus!
