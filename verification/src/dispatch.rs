//! The delivery dispatcher and the acknowledgment controller: the decision
//! core of the consume loop. For each broker event the dispatcher decides
//! whether to hand a decoded message to the handler, to dispose of an
//! undecodable delivery without invoking it, or to stop for good; the
//! acknowledgment controller maps a handler outcome to the one terminal
//! disposition the delivery receives. The loop that performs broker I/O and
//! runs the handler lives outside this crate and only follows the decisions
//! made here, one delivery at a time, in receipt order.

use vstd::prelude::*;
use crate::routing::{decode_of, RoutingKey};

verus! {

/// An inbound domain message handed to the external handler: the delivery's
/// body, lossily decoded to text, and its decoded routing key.
pub struct LoveMessage {
    pub body: String,
    pub routing_key: RoutingKey,
}

/// Model of an inbound message.
pub ghost struct MessageModel {
    pub body: Seq<char>,
    pub routing_key: RoutingKey,
}

impl View for LoveMessage {
    type V = MessageModel;

    open spec fn view(&self) -> MessageModel {
        MessageModel { body: self.body@, routing_key: self.routing_key }
    }
}

/// One event from the broker's consumer stream: a delivery carrying raw body
/// bytes and a wire routing-key string, or any other broker event, which is
/// terminal for the loop.
pub enum BrokerEvent {
    Delivery { body: Vec<u8>, routing_key: String },
    Other,
}

/// Model of a broker event.
pub ghost enum EventModel {
    Delivery { body: Seq<u8>, routing_key: Seq<char> },
    Other,
}

impl View for BrokerEvent {
    type V = EventModel;

    open spec fn view(&self) -> EventModel {
        match self {
            BrokerEvent::Delivery { body, routing_key } => {
                EventModel::Delivery { body: body@, routing_key: routing_key@ }
            },
            BrokerEvent::Other => EventModel::Other,
        }
    }
}

/// The outcome the external handler reports for one message.
#[derive(Clone, Copy, Debug, PartialEq, Eq, Structural)]
pub enum HandlerOutcome {
    Success,
    Failure,
}

/// The terminal disposition of one delivery: ack removes it from the queue
/// for good; nack returns it to the broker, for redelivery when `requeue`
/// holds.
#[derive(Clone, Copy, Debug, PartialEq, Eq, Structural)]
pub enum Disposition {
    Ack,
    Nack { requeue: bool },
}

/// The consume loop's state: consuming, or stopped for the rest of its life.
#[derive(Clone, Copy, Debug, PartialEq, Eq, Structural)]
pub enum LoopState {
    Consuming,
    Stopped,
}

/// What the loop must do for one event.
pub enum DispatchAction {
    /// Hand the message to the handler, then dispose of the delivery by the
    /// handler's outcome.
    Deliver { message: LoveMessage },
    /// Dispose of the delivery without invoking the handler.
    Dispose { disposition: Disposition },
    /// The event was no delivery: stop consuming; nothing is acked or
    /// nacked for it.
    Stop,
}

/// Model of a dispatch action.
pub ghost enum Decision {
    Deliver { message: MessageModel },
    Dispose { disposition: Disposition },
    Stop,
}

impl View for DispatchAction {
    type V = Decision;

    open spec fn view(&self) -> Decision {
        match self {
            DispatchAction::Deliver { message } => Decision::Deliver { message: message@ },
            DispatchAction::Dispose { disposition } => {
                Decision::Dispose { disposition: *disposition }
            },
            DispatchAction::Stop => Decision::Stop,
        }
    }
}

/// Names the text that lossy UTF-8 decoding yields for a byte sequence.
pub uninterp spec fn lossy_text_of(bytes: Seq<u8>) -> Seq<char>;

/// Relies on String::from_utf8_lossy: the text is a function of the bytes
/// alone, and an empty byte sequence yields the empty string.
#[verifier::external_body]
fn utf8_lossy(bytes: &Vec<u8>) -> (r: String)
    ensures
        r@ == lossy_text_of(bytes@),
        bytes@.len() == 0 ==> r@.len() == 0,
{
    String::from_utf8_lossy(bytes.as_slice()).into_owned()
}

/// The decision the dispatcher takes for one event: deliver the decoded
/// message, dispose of an undecodable delivery with a nack that does not
/// requeue, or stop on a non-delivery event.
pub open spec fn decision_of(ev: EventModel) -> Decision {
    match ev {
        EventModel::Delivery { body, routing_key } => match decode_of(routing_key) {
            Some(k) => Decision::Deliver {
                message: MessageModel { body: lossy_text_of(body), routing_key: k },
            },
            None => Decision::Dispose { disposition: Disposition::Nack { requeue: false } },
        },
        EventModel::Other => Decision::Stop,
    }
}

/// The loop state after one event: stopped exactly on a non-delivery event.
pub open spec fn state_after(ev: EventModel) -> LoopState {
    if ev is Other {
        LoopState::Stopped
    } else {
        LoopState::Consuming
    }
}

/// The disposition owed to a handler outcome: ack on success, nack with
/// requeue on failure.
pub open spec fn disposition_of(outcome: HandlerOutcome) -> Disposition {
    match outcome {
        HandlerOutcome::Success => Disposition::Ack,
        HandlerOutcome::Failure => Disposition::Nack { requeue: true },
    }
}

/// The acknowledgment controller: the one terminal disposition a delivery
/// receives for its handler outcome — an ack for success, a nack with
/// requeue for failure, never both and never neither.
pub fn disposition_for(outcome: HandlerOutcome) -> (d: Disposition)
    ensures
        d == disposition_of(outcome),
{
    match outcome {
        HandlerOutcome::Success => Disposition::Ack,
        HandlerOutcome::Failure => Disposition::Nack { requeue: true },
    }
}

/// The delivery dispatcher: decides the loop's action for each broker event
/// in turn, one event at a time, and stops for good on the first
/// non-delivery event.
pub struct Dispatcher {
    pub state: LoopState,
}

impl Dispatcher {
    /// A fresh dispatcher, ready to consume.
    pub fn new() -> (d: Dispatcher)
        ensures
            d.state == LoopState::Consuming,
    {
        Dispatcher { state: LoopState::Consuming }
    }

    /// Decide the action for the next broker event. Only a consuming
    /// dispatcher takes events: once stopped, no further event is
    /// processed.
    pub fn handle_event(&mut self, event: &BrokerEvent) -> (action: DispatchAction)
        requires
            old(self).state == LoopState::Consuming,
        ensures
            action@ == decision_of(event@),
            final(self).state == state_after(event@),
    {
        match event {
            BrokerEvent::Delivery { body, routing_key } => {
                match RoutingKey::from_str(routing_key.as_str()) {
                    Ok(k) => {
                        let text = utf8_lossy(body);
                        DispatchAction::Deliver {
                            message: LoveMessage { body: text, routing_key: k },
                        }
                    },
                    Err(_) => DispatchAction::Dispose {
                        disposition: Disposition::Nack { requeue: false },
                    },
                }
            },
            BrokerEvent::Other => {
                self.state = LoopState::Stopped;
                DispatchAction::Stop
            },
        }
    }
}

/// The model of a whole event stream: each event's model, in order.
pub open spec fn events_model(events: Seq<BrokerEvent>) -> Seq<EventModel> {
    events.map_values(|e: BrokerEvent| e@)
}

/// The disposition owed to one consumed delivery, given the outcome the
/// handler returns for it: the outcome's disposition for a delivered
/// message, the nack without requeue for an undecodable one.
pub open spec fn disposition_owed(ev: EventModel, out: HandlerOutcome) -> Disposition {
    match decision_of(ev) {
        Decision::Deliver { .. } => disposition_of(out),
        Decision::Dispose { disposition } => disposition,
        Decision::Stop => arbitrary(),
    }
}

/// The dispositions the consume loop issues from event `i` on, given the
/// outcome the handler would return for each event were it delivered. One
/// disposition per delivery, in receipt order; the first non-delivery event
/// ends the run with no disposition of its own.
pub open spec fn run_from(
    events: Seq<EventModel>,
    outcomes: Seq<HandlerOutcome>,
    i: int,
) -> Seq<Disposition>
    decreases events.len() - i,
{
    if i < 0 || i >= events.len() || i >= outcomes.len() {
        Seq::empty()
    } else if decision_of(events[i]) is Stop {
        Seq::empty()
    } else {
        seq![disposition_owed(events[i], outcomes[i])] + run_from(events, outcomes, i + 1)
    }
}

/// The dispositions one whole run of the consume loop issues.
pub open spec fn run_of(events: Seq<EventModel>, outcomes: Seq<HandlerOutcome>) -> Seq<
    Disposition,
> {
    run_from(events, outcomes, 0)
}

/// Replay the consume loop over a known event stream: `outcomes[i]` is the
/// outcome the handler returns for event `i` were it delivered. Returns the
/// dispositions the loop issues, one per consumed delivery, in receipt
/// order; processing is strictly sequential, so no two deliveries are ever
/// in flight at once.
pub fn run_consumer(events: &Vec<BrokerEvent>, outcomes: &Vec<HandlerOutcome>) -> (dispositions:
    Vec<Disposition>)
    requires
        events@.len() == outcomes@.len(),
    ensures
        dispositions@ == run_of(events_model(events@), outcomes@),
{
    let ghost em = events_model(events@);
    let mut dispositions: Vec<Disposition> = Vec::new();
    let mut dispatcher = Dispatcher::new();
    let mut stopped = false;
    let mut i: usize = 0;
    while !stopped && i < events.len()
        invariant
            i <= events@.len(),
            events@.len() == outcomes@.len(),
            em == events_model(events@),
            !stopped ==> dispatcher.state == LoopState::Consuming,
            !stopped ==> run_of(em, outcomes@) == dispositions@ + run_from(
                em,
                outcomes@,
                i as int,
            ),
            stopped ==> dispositions@ == run_of(em, outcomes@),
        decreases events@.len() - i,
    {
        let event = &events[i];
        proof {
            assert(em[i as int] == event@);
        }
        let action = dispatcher.handle_event(event);
        match action {
            DispatchAction::Deliver { message: _ } => {
                let d = disposition_for(outcomes[i]);
                dispositions.push(d);
                proof {
                    assert(dispositions@ + run_from(em, outcomes@, i + 1 as int)
                        =~= dispositions@.drop_last() + run_from(em, outcomes@, i as int));
                }
            },
            DispatchAction::Dispose { disposition } => {
                dispositions.push(disposition);
                proof {
                    assert(dispositions@ + run_from(em, outcomes@, i + 1 as int)
                        =~= dispositions@.drop_last() + run_from(em, outcomes@, i as int));
                }
            },
            DispatchAction::Stop => {
                stopped = true;
                proof {
                    assert(run_from(em, outcomes@, i as int) =~= Seq::<Disposition>::empty());
                    assert(dispositions@ + Seq::<Disposition>::empty() =~= dispositions@);
                }
            },
        }
        i = i + 1;
    }
    proof {
        if !stopped {
            assert(run_from(em, outcomes@, i as int) =~= Seq::<Disposition>::empty());
            assert(dispositions@ + Seq::<Disposition>::empty() =~= dispositions@);
        }
    }
    dispositions
}

/// Law: a delivered message whose handler succeeds receives exactly one
/// ack and no nack.
pub proof fn lemma_success_is_acked(ev: EventModel)
    requires
        decision_of(ev) is Deliver,
    ensures
        disposition_owed(ev, HandlerOutcome::Success) == Disposition::Ack,
{
}

/// Law: a delivered message whose handler fails receives exactly one nack
/// with requeue and no ack.
pub proof fn lemma_failure_is_requeued(ev: EventModel)
    requires
        decision_of(ev) is Deliver,
    ensures
        disposition_owed(ev, HandlerOutcome::Failure) == (Disposition::Nack { requeue: true }),
{
}

proof fn lemma_run_from_no_stop(events: Seq<EventModel>, outcomes: Seq<HandlerOutcome>, i: int)
    requires
        events.len() == outcomes.len(),
        0 <= i <= events.len(),
        forall|j: int| i <= j < events.len() ==> !(decision_of(events[j]) is Stop),
    ensures
        run_from(events, outcomes, i).len() == events.len() - i,
        forall|j: int| i <= j < events.len() ==> run_from(events, outcomes, i)[j - i]
            == disposition_owed(events[j], outcomes[j]),
    decreases events.len() - i,
{
    if i < events.len() {
        lemma_run_from_no_stop(events, outcomes, i + 1);
    }
}

/// Law: deliveries are disposed of in strict receipt order, exactly one
/// disposition each — while no non-delivery event arrives, the run issues
/// the j-th disposition for the j-th event, and nothing else.
pub proof fn lemma_dispositions_in_receipt_order(
    events: Seq<EventModel>,
    outcomes: Seq<HandlerOutcome>,
)
    requires
        events.len() == outcomes.len(),
        forall|j: int| 0 <= j < events.len() ==> !(decision_of(events[j]) is Stop),
    ensures
        run_of(events, outcomes).len() == events.len(),
        forall|j: int| 0 <= j < events.len() ==> run_of(events, outcomes)[j]
            == disposition_owed(events[j], outcomes[j]),
{
    lemma_run_from_no_stop(events, outcomes, 0);
}

proof fn lemma_run_from_stop(
    events: Seq<EventModel>,
    outcomes: Seq<HandlerOutcome>,
    i: int,
    n: int,
)
    requires
        events.len() == outcomes.len(),
        0 <= i <= n < events.len(),
        decision_of(events[n]) is Stop,
        forall|j: int| i <= j < n ==> !(decision_of(events[j]) is Stop),
    ensures
        run_from(events, outcomes, i).len() == n - i,
        forall|j: int| i <= j < n ==> run_from(events, outcomes, i)[j - i]
            == disposition_owed(events[j], outcomes[j]),
    decreases n - i,
{
    if i < n {
        lemma_run_from_stop(events, outcomes, i + 1, n);
    }
}

/// Law: the first non-delivery event ends the run — each delivery before it
/// receives its one disposition in receipt order, and neither that event
/// nor anything after it receives any.
pub proof fn lemma_stop_is_final(events: Seq<EventModel>, outcomes: Seq<HandlerOutcome>, n: int)
    requires
        events.len() == outcomes.len(),
        0 <= n < events.len(),
        decision_of(events[n]) is Stop,
        forall|j: int| 0 <= j < n ==> !(decision_of(events[j]) is Stop),
    ensures
        run_of(events, outcomes).len() == n,
        forall|j: int| 0 <= j < n ==> run_of(events, outcomes)[j]
            == disposition_owed(events[j], outcomes[j]),
{
    lemma_run_from_stop(events, outcomes, 0, n);
}

} // verus!
