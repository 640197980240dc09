//! What a backend worker does with what its channels hand it. The loop that
//! waits on the channels belongs to the caller; the decisions are here.
use crate::protocol::{Request, RequestView};
use vstd::prelude::*;

verus! {

/// What came of a look at the request channel of a worker.
#[derive(Debug)]
pub enum Received {
    /// A request.
    Request(Request),
    /// Nothing is waiting.
    Empty,
    /// The worker has fallen behind, and this many requests were passed over.
    Lagged(u64),
    /// Every sender has gone.
    Closed,
}

/// What a worker does next.
#[derive(Debug)]
pub enum Step {
    /// Handle this request.
    Handle(Request),
    /// Subscribe to the channel anew, dropping whatever is still unread.
    Resubscribe,
    /// Cancel the token shared by the tasks of the backend, which ends them.
    Cancel,
    /// Leave the loop.
    Stop,
    /// Nothing to do before the next tick.
    Idle,
}

/// What a [`Step`] stands for in contracts.
pub enum StepView {
    Handle(RequestView),
    Resubscribe,
    Cancel,
    Stop,
    Idle,
}

impl View for Step {
    type V = StepView;

    open spec fn view(&self) -> StepView {
        match self {
            Step::Handle(request) => StepView::Handle(request@),
            Step::Resubscribe => StepView::Resubscribe,
            Step::Cancel => StepView::Cancel,
            Step::Stop => StepView::Stop,
            Step::Idle => StepView::Idle,
        }
    }
}

/// The step of a worker that cancels its backend when the channel closes,
/// as the workers that load content do. A worker that has fallen behind
/// drops the backlog rather than work through it.
pub fn on_received(received: Received) -> (step: Step)
    ensures
        step@ == match received {
            Received::Request(request) => StepView::Handle(request@),
            Received::Empty => StepView::Idle,
            Received::Lagged(_) => StepView::Resubscribe,
            Received::Closed => StepView::Cancel,
        },
{
    match received {
        Received::Request(request) => Step::Handle(request),
        Received::Empty => Step::Idle,
        Received::Lagged(_) => Step::Resubscribe,
        Received::Closed => Step::Cancel,
    }
}

/// The step of a worker that simply leaves when the channel closes, as the
/// player does.
pub fn on_received_by_player(received: Received) -> (step: Step)
    ensures
        step@ == match received {
            Received::Request(request) => StepView::Handle(request@),
            Received::Empty => StepView::Idle,
            Received::Lagged(_) => StepView::Resubscribe,
            Received::Closed => StepView::Stop,
        },
{
    match received {
        Received::Request(request) => Step::Handle(request),
        Received::Empty => Step::Idle,
        Received::Lagged(_) => Step::Resubscribe,
        Received::Closed => Step::Stop,
    }
}

/// What reached the relay that stands between the front end and the tasks
/// of one backend.
#[derive(Debug, Clone, Copy, PartialEq, Eq, Structural)]
pub enum RelayEvent {
    /// The front end has cancelled.
    Cancelled,
    /// A request of the front end was passed on to the tasks; `delivered`
    /// says whether any of them is still there to take it.
    Request { delivered: bool },
    /// The front end has closed its channel.
    RequestsClosed,
    /// An answer of the tasks was passed on to the front end; `delivered`
    /// says whether the front end is still there to take it.
    Answer { delivered: bool },
    /// The tasks have closed their channel.
    AnswersClosed,
}

/// What the relay does next.
#[derive(Debug, Clone, Copy, PartialEq, Eq, Structural)]
pub enum RelayStep {
    /// Go on relaying.
    Continue,
    /// Leave the loop and wait for the tasks to end.
    Leave,
    /// Cancel the tasks of the backend, then leave.
    CancelAndLeave,
}

/// The step of the relay. It goes on for as long as both sides take what
/// they are sent; it leaves as soon as one side is gone, and takes the tasks
/// of the backend with it when the front end cancels.
pub fn relay_step(event: RelayEvent) -> (step: RelayStep)
    ensures
        step == match event {
            RelayEvent::Cancelled => RelayStep::CancelAndLeave,
            RelayEvent::Request { delivered } => if delivered {
                RelayStep::Continue
            } else {
                RelayStep::Leave
            },
            RelayEvent::RequestsClosed => RelayStep::Leave,
            RelayEvent::Answer { delivered } => if delivered {
                RelayStep::Continue
            } else {
                RelayStep::Leave
            },
            RelayEvent::AnswersClosed => RelayStep::Continue,
        },
{
    match event {
        RelayEvent::Cancelled => RelayStep::CancelAndLeave,
        RelayEvent::Request { delivered } => {
            if delivered {
                RelayStep::Continue
            } else {
                RelayStep::Leave
            }
        },
        RelayEvent::RequestsClosed => RelayStep::Leave,
        RelayEvent::Answer { delivered } => {
            if delivered {
                RelayStep::Continue
            } else {
                RelayStep::Leave
            }
        },
        RelayEvent::AnswersClosed => RelayStep::Continue,
    }
}

} // verus!
