//! One event from end to end: the decision taken on a message, and the
//! outcome of the event once the executor has answered.
//!
//! The executor itself is not here. Whoever runs the session performs the
//! request and reports back how it went; nothing in this module keeps state
//! between two events.

use vstd::prelude::*;
use crate::filter::should_process;
use crate::label::{derive_label, spec_derive_label};
use crate::model::{ActionRequest, ActionRequestView, InboundMessage, InboundMessageView};
use crate::recognizer::{conforms, lemma_recognize_conforms, recognize, spec_recognize};

verus! {

/// What is to be done about one message.
#[derive(Clone, Debug, PartialEq, Eq)]
pub enum Decision {
    /// The author is automated: the message is not looked at.
    Filtered,
    /// The body is no command: nothing happens.
    NoMatch,
    /// The body is a command: the executor is to perform this request.
    Act(ActionRequest),
}

/// What a [`Decision`] is, to the contracts.
pub ghost enum DecisionView {
    Filtered,
    NoMatch,
    Act(ActionRequestView),
}

impl View for Decision {
    type V = DecisionView;

    open spec fn view(&self) -> DecisionView {
        match self {
            Decision::Filtered => DecisionView::Filtered,
            Decision::NoMatch => DecisionView::NoMatch,
            Decision::Act(request) => DecisionView::Act(request@),
        }
    }
}

/// The decision on `msg`: the filter first, then the recognizer, then the
/// label. The thread is opened in the message's channel, on the message.
pub open spec fn spec_decide(msg: InboundMessageView) -> DecisionView {
    if msg.author_is_automated {
        DecisionView::Filtered
    } else if !spec_recognize(msg.body).matched {
        DecisionView::NoMatch
    } else {
        DecisionView::Act(
            ActionRequestView {
                channel_id: msg.channel_id,
                anchor_message_id: msg.message_id,
                label: spec_derive_label(spec_recognize(msg.body), msg.body),
            },
        )
    }
}

/// Decides what is to be done about `msg`. A message of an automated author
/// is filtered whatever its body says, and no request is made for a body that
/// is not a command.
pub fn decide(msg: &InboundMessage) -> (decision: Decision)
    ensures
        decision@ == spec_decide(msg@),
        msg.author_is_automated ==> decision@ == DecisionView::Filtered,
        decision@ is Act <==> !msg.author_is_automated && conforms(msg.body@),
{
    proof {
        lemma_recognize_conforms(msg.body@);
    }
    if !should_process(msg) {
        return Decision::Filtered;
    }
    let body = msg.body.as_str();
    let found = recognize(body);
    if !found.matched {
        return Decision::NoMatch;
    }
    let label = derive_label(&found, body);
    Decision::Act(
        ActionRequest { channel_id: msg.channel_id, anchor_message_id: msg.message_id, label },
    )
}

/// Why the executor did not perform a request.
#[derive(Clone, Copy, Debug, PartialEq, Eq, Structural)]
pub enum ExecutorFailure {
    /// The bot may not open threads in that channel.
    PermissionDenied,
    /// The channel or the message is gone.
    NotFound,
    /// The request did not get through.
    Network,
    /// Any other refusal.
    Other,
}

/// How one event ended.
#[derive(Clone, Copy, Debug, PartialEq, Eq, Structural)]
pub enum EventOutcome {
    /// The message was filtered.
    Filtered,
    /// The message was no command.
    NoMatch,
    /// The thread was opened.
    Completed,
    /// The executor failed. The event ends here: the request is not tried
    /// again, and the session goes on.
    ActionFailed(ExecutorFailure),
}

/// The outcome of an event from its decision and from what the executor
/// reported: `None` for success, the failure otherwise. Where the decision
/// made no request the executor was never called, and its report plays no
/// part.
pub open spec fn spec_outcome(
    decision: DecisionView,
    report: Option<ExecutorFailure>,
) -> EventOutcome {
    match decision {
        DecisionView::Filtered => EventOutcome::Filtered,
        DecisionView::NoMatch => EventOutcome::NoMatch,
        DecisionView::Act(_) => match report {
            None => EventOutcome::Completed,
            Some(failure) => EventOutcome::ActionFailed(failure),
        },
    }
}

/// Closes an event: see [`spec_outcome`].
pub fn conclude(decision: &Decision, report: Option<ExecutorFailure>) -> (outcome: EventOutcome)
    ensures
        outcome == spec_outcome(decision@, report),
{
    match decision {
        Decision::Filtered => EventOutcome::Filtered,
        Decision::NoMatch => EventOutcome::NoMatch,
        Decision::Act(_) => match report {
            None => EventOutcome::Completed,
            Some(failure) => EventOutcome::ActionFailed(failure),
        },
    }
}

/// One recorded event: the message, and what the executor reported for it
/// (`None` for success; without meaning where no request was made).
pub type RecordedEvent = (InboundMessage, Option<ExecutorFailure>);

/// What a recorded event is, to the contracts.
pub type RecordedEventView = (InboundMessageView, Option<ExecutorFailure>);

/// The recorded events by their views.
pub open spec fn events_view(events: Seq<RecordedEvent>) -> Seq<RecordedEventView> {
    Seq::new(events.len(), |i: int| (events[i].0@, events[i].1))
}

/// The outcomes of a recorded session, event by event: each is the outcome
/// of its own message and its own report.
pub open spec fn spec_replay(events: Seq<RecordedEventView>) -> Seq<EventOutcome> {
    Seq::new(events.len(), |i: int| spec_outcome(spec_decide(events[i].0), events[i].1))
}

/// Runs a recorded session through the pipeline and returns the outcome of
/// each event, in order.
pub fn replay(events: &Vec<RecordedEvent>) -> (outcomes: Vec<EventOutcome>)
    ensures
        outcomes@ == spec_replay(events_view(events@)),
{
    let mut outcomes: Vec<EventOutcome> = Vec::new();
    let mut i: usize = 0;
    while i < events.len()
        invariant
            i <= events.len(),
            outcomes@ == spec_replay(events_view(events@)).subrange(0, i as int),
        decreases events.len() - i,
    {
        let decision = decide(&events[i].0);
        let outcome = conclude(&decision, events[i].1);
        outcomes.push(outcome);
        i = i + 1;
        assert(outcomes@ =~= spec_replay(events_view(events@)).subrange(0, i as int));
    }
    assert(outcomes@ =~= spec_replay(events_view(events@)));
    outcomes
}

/// A failure stays with its event: if the executor fails on event `failed`,
/// whatever it had reported there before, every other event of the session
/// ends as it would have ended anyway.
pub proof fn lemma_failure_is_isolated(
    events: Seq<RecordedEventView>,
    failed: int,
    failure: ExecutorFailure,
    other: int,
)
    requires
        0 <= failed < events.len(),
        0 <= other < events.len(),
        other != failed,
    ensures
        spec_replay(events.update(failed, (events[failed].0, Some(failure))))[other]
            == spec_replay(events)[other],
{
}

/// An event's outcome is its own: two sessions that hold the same message
/// and the same report at one position end alike there, whatever else
/// happened in either.
pub proof fn lemma_outcome_is_local(
    first: Seq<RecordedEventView>,
    second: Seq<RecordedEventView>,
    at: int,
)
    requires
        0 <= at < first.len(),
        0 <= at < second.len(),
        first[at] == second[at],
    ensures
        spec_replay(first)[at] == spec_replay(second)[at],
{
}

} // verus!
