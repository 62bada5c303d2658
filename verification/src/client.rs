//! The dispatcher: the one consumer of a bounded queue of pending requests.
//!
//! Callers enqueue payloads; the dispatcher takes them one at a time, in the
//! order in which they were admitted, has the transport perform the exchange
//! and classifies what came back. The transport itself and the tasks that
//! wait are the embedding program's: it performs each step that the
//! dispatcher decides on and reports the outcome.

use std::collections::VecDeque;
use vstd::prelude::*;
use crate::body::{joined, read_body, text_of};
use crate::handle::ClientHandle;
use crate::error::{result_view, ClientResult, Error, ErrorMessage, ErrorMessageView, ErrorView};
use crate::json::{decoded_message, message_view, FALLBACK_CODE};
use crate::request::{Payload, PayloadView, Request};
use crate::status::StatusCode;
use crate::target::{bad_target, resolve_target, valid_target};

verus! {

/// The settings of a client.
#[derive(Debug, Clone, Copy, PartialEq, Eq)]
pub struct Config {
    /// How many times a call is tried again after a transport failure.
    pub http_client_retries: usize,
    /// How many payloads the queue holds.
    pub http_client_buffer_size: usize,
}

/// What the transport reports of one exchange.
#[derive(Debug, Clone, PartialEq, Eq)]
pub enum TransportOutcome {
    /// An answer arrived: its status and the chunks of its body, in order.
    Response { status: StatusCode, chunks: Vec<Vec<u8>> },
    /// No answer was obtained; the text describes why.
    Failure(String),
}

/// Mathematical model of [`TransportOutcome`].
pub enum TransportOutcomeView {
    Response { status: u16, bytes: Seq<u8> },
    Failure(Seq<char>),
}

impl View for TransportOutcome {
    type V = TransportOutcomeView;

    open spec fn view(&self) -> TransportOutcomeView {
        match *self {
            TransportOutcome::Response { status, chunks } => TransportOutcomeView::Response {
                status: status@,
                bytes: joined(chunks@),
            },
            TransportOutcome::Failure(reason) => TransportOutcomeView::Failure(reason@),
        }
    }
}

/// Whether a status lies in the success range.
pub open spec fn success(status: u16) -> bool {
    200 <= status <= 299
}

/// What the caller gets for an answer with a readable body: the body on
/// success, else the failure with the structured message of the body, or
/// with the fallback message where the body holds none.
pub open spec fn answered(status: u16, body: Seq<char>, decoded: Option<ErrorMessageView>) -> Result<
    Seq<char>,
    ErrorView,
> {
    if success(status) {
        Ok(body)
    } else {
        Err(
            ErrorView::Api(
                status,
                Some(
                    match decoded {
                        Some(message) => message,
                        None => ErrorMessageView { code: FALLBACK_CODE, message: body },
                    },
                ),
            ),
        )
    }
}

/// What the caller gets for an outcome of the transport.
pub open spec fn classified(outcome: TransportOutcomeView) -> Result<Seq<char>, ErrorView> {
    match outcome {
        TransportOutcomeView::Failure(reason) => Err(ErrorView::Network(reason)),
        TransportOutcomeView::Response { status, bytes } => match text_of(bytes) {
            Ok(body) => answered(status, body, decoded_message(body)),
            Err(error) => Err(error),
        },
    }
}

/// Classifies an answer whose body was read, given the structured message
/// that the body was found to hold.
pub fn respond(status: StatusCode, body: String, decoded: Option<ErrorMessage>) -> (r: ClientResult)
    ensures
        result_view(r) == answered(status@, body@, message_view(decoded)),
{
    if status.is_success() {
        Ok(body)
    } else {
        let message = match decoded {
            Some(message) => message,
            None => ErrorMessage::fallback(body),
        };
        Err(Error::Api(status, Some(message)))
    }
}

/// Classifies an outcome of the transport.
pub fn classify(outcome: TransportOutcome) -> (r: ClientResult)
    ensures
        result_view(r) == classified(outcome@),
{
    match outcome {
        TransportOutcome::Failure(reason) => Err(Error::Network(reason)),
        TransportOutcome::Response { status, chunks } => match read_body(&chunks) {
            Ok(body) => {
                let decoded = if status.is_success() {
                    None
                } else {
                    ErrorMessage::from_json(body.as_str())
                };
                respond(status, body, decoded)
            },
            Err(error) => Err(error),
        },
    }
}

/// What the dispatcher decides on its turn.
#[derive(Debug)]
pub enum Step<R> {
    /// Nothing to do: the queue is empty, or an exchange is in flight.
    Idle,
    /// The oldest payload has a usable target: perform its exchange.
    Execute,
    /// The oldest payload was taken off the queue without an exchange:
    /// deliver the failure on its reply channel.
    Reject(R, Error),
}

/// Mathematical model of [`Step`].
pub enum StepView<R> {
    Idle,
    Execute,
    Reject(R, ErrorView),
}

impl<R> View for Step<R> {
    type V = StepView<R>;

    open spec fn view(&self) -> StepView<R> {
        match *self {
            Step::Idle => StepView::Idle,
            Step::Execute => StepView::Execute,
            Step::Reject(callback, error) => StepView::Reject(callback, error@),
        }
    }
}

/// What happens to a dispatcher.
pub enum Event<R> {
    /// A caller offers a payload.
    Enqueue(PayloadView<R>),
    /// The dispatcher takes its turn.
    Turn,
    /// The transport reports the outcome of the exchange in flight.
    Complete,
}

/// Mathematical model of a [`Client`]: the payloads that were admitted and
/// not yet answered, oldest first, the capacity of the queue, whether the
/// oldest payload's exchange is in flight, and the retry budget of calls.
pub struct ClientView<R> {
    pub pending: Seq<PayloadView<R>>,
    pub capacity: nat,
    pub busy: bool,
    pub max_retries: nat,
}

impl<R> ClientView<R> {
    /// The states that a dispatcher can be in.
    pub open spec fn well_formed(self) -> bool {
        &&& self.pending.len() <= self.capacity
        &&& self.busy ==> self.pending.len() > 0
    }

    /// Whether a payload offered now is admitted.
    pub open spec fn accepts(self) -> bool {
        self.pending.len() < self.capacity
    }

    /// Whether the dispatcher, on its turn, takes the oldest payload in hand.
    pub open spec fn takes(self) -> bool {
        !self.busy && self.pending.len() > 0
    }

    /// The payloads that the dispatcher has not taken in hand yet.
    pub open spec fn waiting(self) -> Seq<PayloadView<R>> {
        if self.busy {
            self.pending.drop_first()
        } else {
            self.pending
        }
    }

    /// The state after an event.
    pub open spec fn after(self, event: Event<R>) -> ClientView<R> {
        match event {
            Event::Enqueue(payload) => if self.accepts() {
                ClientView { pending: self.pending.push(payload), ..self }
            } else {
                self
            },
            Event::Turn => if !self.takes() {
                self
            } else if valid_target(self.pending[0].request.url) {
                ClientView { busy: true, ..self }
            } else {
                ClientView { pending: self.pending.drop_first(), ..self }
            },
            Event::Complete => if self.busy {
                ClientView { pending: self.pending.drop_first(), busy: false, ..self }
            } else {
                self
            },
        }
    }

    /// The payload that an event admits to the queue, if any.
    pub open spec fn admits(self, event: Event<R>) -> Seq<PayloadView<R>> {
        match event {
            Event::Enqueue(payload) => if self.accepts() {
                seq![payload]
            } else {
                Seq::empty()
            },
            _ => Seq::empty(),
        }
    }

    /// The payload that the dispatcher takes in hand at an event, if any.
    pub open spec fn takes_up(self, event: Event<R>) -> Seq<PayloadView<R>> {
        match event {
            Event::Turn => if self.takes() {
                seq![self.pending[0]]
            } else {
                Seq::empty()
            },
            _ => Seq::empty(),
        }
    }

    /// The payload whose exchange is initiated at an event, if any.
    pub open spec fn initiates(self, event: Event<R>) -> Seq<PayloadView<R>> {
        match event {
            Event::Turn => if self.takes() && valid_target(self.pending[0].request.url) {
                seq![self.pending[0]]
            } else {
                Seq::empty()
            },
            _ => Seq::empty(),
        }
    }

    /// The state after a series of events.
    pub open spec fn run(self, events: Seq<Event<R>>) -> ClientView<R>
        decreases events.len(),
    {
        if events.len() == 0 {
            self
        } else {
            self.after(events[0]).run(events.drop_first())
        }
    }

    /// The payloads that a series of events admits, in order.
    pub open spec fn admitted(self, events: Seq<Event<R>>) -> Seq<PayloadView<R>>
        decreases events.len(),
    {
        if events.len() == 0 {
            Seq::empty()
        } else {
            self.admits(events[0]) + self.after(events[0]).admitted(events.drop_first())
        }
    }

    /// The payloads that the dispatcher takes in hand over a series of
    /// events, in order.
    pub open spec fn taken(self, events: Seq<Event<R>>) -> Seq<PayloadView<R>>
        decreases events.len(),
    {
        if events.len() == 0 {
            Seq::empty()
        } else {
            self.takes_up(events[0]) + self.after(events[0]).taken(events.drop_first())
        }
    }

    /// The payloads whose exchange is initiated over a series of events, in
    /// order.
    pub open spec fn initiated(self, events: Seq<Event<R>>) -> Seq<PayloadView<R>>
        decreases events.len(),
    {
        if events.len() == 0 {
            Seq::empty()
        } else {
            self.initiates(events[0]) + self.after(events[0]).initiated(events.drop_first())
        }
    }

    /// What the dispatcher decides on its turn.
    pub open spec fn decision(self) -> StepView<R> {
        if !self.takes() {
            StepView::Idle
        } else if valid_target(self.pending[0].request.url) {
            StepView::Execute
        } else {
            StepView::Reject(self.pending[0].callback, bad_target(self.pending[0].request.url))
        }
    }
}

/// The dispatcher and its queue.
pub struct Client<R> {
    queue: VecDeque<Payload<R>>,
    capacity: usize,
    busy: bool,
    max_retries: usize,
}

impl<R> View for Client<R> {
    type V = ClientView<R>;

    closed spec fn view(&self) -> ClientView<R> {
        ClientView {
            pending: self.queue@.map_values(|payload: Payload<R>| payload@),
            capacity: self.capacity as nat,
            busy: self.busy,
            max_retries: self.max_retries as nat,
        }
    }
}

impl<R> Client<R> {
    #[verifier::type_invariant]
    spec fn inv(self) -> bool {
        &&& self.queue@.len() <= self.capacity
        &&& self.busy ==> self.queue@.len() > 0
    }

    /// A dispatcher with an empty queue of the configured capacity.
    pub fn new(config: &Config) -> (r: Client<R>)
        ensures
            r@ == (ClientView::<R> {
                pending: Seq::empty(),
                capacity: config.http_client_buffer_size as nat,
                busy: false,
                max_retries: config.http_client_retries as nat,
            }),
    {
        let r = Client {
            queue: VecDeque::new(),
            capacity: config.http_client_buffer_size,
            busy: false,
            max_retries: config.http_client_retries,
        };
        assert(r@.pending =~= Seq::empty());
        r
    }

    /// A handle for callers, with the configured retry budget.
    pub fn handle(&self) -> (r: ClientHandle)
        ensures
            r.budget() == self@.max_retries,
    {
        ClientHandle::new(self.max_retries)
    }

    /// How many payloads are admitted and not yet answered.
    pub fn len(&self) -> (r: usize)
        ensures
            r == self@.pending.len(),
            self@.well_formed(),
    {
        proof {
            use_type_invariant(self);
        }
        self.queue.len()
    }

    /// Offers a payload. It is admitted at the end of the queue while the
    /// queue holds fewer payloads than its capacity; otherwise the queue
    /// stays as it is and the payload is handed back, for the caller to
    /// offer again once an exchange has completed.
    pub fn enqueue(&mut self, payload: Payload<R>) -> (r: Result<(), Payload<R>>)
        ensures
            final(self)@ == old(self)@.after(Event::Enqueue(payload@)),
            old(self)@.accepts() ==> r is Ok,
            !old(self)@.accepts() ==> r == Err::<(), Payload<R>>(payload),
    {
        proof {
            use_type_invariant(&*self);
        }
        if self.queue.len() < self.capacity {
            let busy = self.busy;
            self.busy = false;
            let mut queue = VecDeque::new();
            std::mem::swap(&mut queue, &mut self.queue);
            queue.push_back(payload);
            self.queue = queue;
            self.busy = busy;
            assert(final(self)@.pending =~= old(self)@.pending.push(payload@));
            Ok(())
        } else {
            Err(payload)
        }
    }

    /// The request whose exchange is in flight, if there is one.
    pub fn in_flight(&self) -> (r: Option<&Request>)
        ensures
            self@.busy ==> r is Some && r.unwrap()@ == self@.pending[0].request,
            !self@.busy ==> r is None,
    {
        proof {
            use_type_invariant(self);
        }
        if self.busy {
            Some(&self.queue[0].request)
        } else {
            None
        }
    }

    /// One turn of the dispatch loop. With no exchange in flight and a
    /// payload waiting, the oldest one is taken in hand: where its target is
    /// usable its exchange is to be performed, and it stays at the head of
    /// the queue until the outcome is reported; where it is not, the payload
    /// leaves the queue at once and its failure is to be delivered, with no
    /// exchange made.
    pub fn stream(&mut self) -> (r: Step<R>)
        ensures
            final(self)@ == old(self)@.after(Event::Turn),
            r@ == old(self)@.decision(),
    {
        proof {
            use_type_invariant(&*self);
        }
        if self.busy || self.queue.len() == 0 {
            return Step::Idle;
        }
        match resolve_target(self.queue[0].request.url.as_str()) {
            Ok(()) => {
                self.busy = true;
                Step::Execute
            },
            Err(error) => {
                let mut queue = VecDeque::new();
                std::mem::swap(&mut queue, &mut self.queue);
                let head = queue.pop_front();
                self.queue = queue;
                assert(final(self)@.pending =~= old(self)@.pending.drop_first());
                match head {
                    Some(payload) => Step::Reject(payload.callback, error),
                    None => Step::Idle,
                }
            },
        }
    }

    /// Takes the outcome of the exchange in flight. The payload leaves the
    /// queue and the result is handed out with its reply channel, for the
    /// one delivery; the dispatcher is free for the next payload. With no
    /// exchange in flight nothing changes.
    pub fn complete(&mut self, outcome: TransportOutcome) -> (r: Option<(R, ClientResult)>)
        ensures
            final(self)@ == old(self)@.after(Event::Complete),
            old(self)@.busy ==> r is Some && r.unwrap().0 == old(self)@.pending[0].callback
                && result_view(r.unwrap().1) == classified(outcome@),
            !old(self)@.busy ==> r is None,
    {
        proof {
            use_type_invariant(&*self);
        }
        if !self.busy {
            return None;
        }
        self.busy = false;
        let mut queue = VecDeque::new();
        std::mem::swap(&mut queue, &mut self.queue);
        let head = queue.pop_front();
        self.queue = queue;
        assert(final(self)@.pending =~= old(self)@.pending.drop_first());
        match head {
            Some(payload) => Some((payload.callback, classify(outcome))),
            None => None,
        }
    }
}

/// The events that offer the given payloads, one after the other.
pub open spec fn offers<R>(payloads: Seq<PayloadView<R>>) -> Seq<Event<R>> {
    payloads.map_values(|payload: PayloadView<R>| Event::Enqueue(payload))
}

/// The payloads with a usable target among the given ones, in order.
pub open spec fn usable<R>(payloads: Seq<PayloadView<R>>) -> Seq<PayloadView<R>>
    decreases payloads.len(),
{
    if payloads.len() == 0 {
        Seq::empty()
    } else if valid_target(payloads[0].request.url) {
        seq![payloads[0]] + usable(payloads.drop_first())
    } else {
        usable(payloads.drop_first())
    }
}

/// No event takes a dispatcher out of the well-formed states: the queue
/// never holds more than its capacity, and an exchange in flight always
/// belongs to the payload at the head of the queue.
pub proof fn lemma_stays_well_formed<R>(state: ClientView<R>, events: Seq<Event<R>>)
    requires
        state.well_formed(),
    ensures
        state.run(events).well_formed(),
    decreases events.len(),
{
    if events.len() > 0 {
        lemma_stays_well_formed(state.after(events[0]), events.drop_first());
    }
}

/// Backpressure. A queue that holds as many payloads as its capacity admits
/// nothing: an offer leaves the state as it is. It admits again only after a
/// payload has been answered, by the outcome of the exchange in flight or by
/// the failure of a payload whose target is not usable.
pub proof fn lemma_full_queue_refuses<R>(
    state: ClientView<R>,
    payload: PayloadView<R>,
    event: Event<R>,
)
    requires
        state.well_formed(),
        state.pending.len() == state.capacity,
    ensures
        !state.accepts(),
        state.after(Event::Enqueue(payload)) == state,
        state.admits(Event::Enqueue(payload)) == Seq::<PayloadView<R>>::empty(),
        state.after(event).accepts() <==> state.capacity > 0 && (event is Complete && state.busy
            || event is Turn && state.takes() && !valid_target(state.pending[0].request.url)),
{
}

/// Capacity. Of payloads offered in a row to a queue with room for `room`
/// more, the first `room` are admitted, in the order of the offers, and
/// every later one is refused.
pub proof fn lemma_admits_up_to_capacity<R>(
    state: ClientView<R>,
    payloads: Seq<PayloadView<R>>,
    room: nat,
)
    requires
        state.well_formed(),
        state.pending.len() + room == state.capacity,
    ensures
        state.admitted(offers(payloads)) == if payloads.len() <= room {
            payloads
        } else {
            payloads.take(room as int)
        },
        state.run(offers(payloads)).pending == state.pending + state.admitted(offers(payloads)),
    decreases payloads.len(),
{
    let events = offers(payloads);
    if payloads.len() == 0 {
        assert(state.pending + Seq::<PayloadView<R>>::empty() =~= state.pending);
    } else {
        let next = state.after(events[0]);
        let rest = payloads.drop_first();
        assert(events.drop_first() =~= offers(rest));
        if room > 0 {
            lemma_admits_up_to_capacity(next, rest, (room - 1) as nat);
            if payloads.len() <= room {
                assert(seq![payloads[0]] + rest =~= payloads);
            } else {
                assert(seq![payloads[0]] + rest.take(room - 1) =~= payloads.take(room as int));
            }
            assert(next.pending + next.admitted(offers(rest)) =~= state.pending + (seq![
                payloads[0],
            ] + next.admitted(offers(rest))));
        } else {
            lemma_admits_up_to_capacity(next, rest, 0);
            assert(rest.take(0) =~= Seq::<PayloadView<R>>::empty());
            assert(payloads.take(0) =~= Seq::<PayloadView<R>>::empty());
            assert(Seq::<PayloadView<R>>::empty() + next.admitted(offers(rest))
                =~= next.admitted(offers(rest)));
        }
    }
}

/// First in, first served, and nothing lost. Over any series of events, the
/// payloads that waited at the start followed by those admitted since are
/// exactly the payloads that the dispatcher took in hand, in that order,
/// followed by those that still wait.
pub proof fn lemma_first_in_first_served<R>(state: ClientView<R>, events: Seq<Event<R>>)
    requires
        state.well_formed(),
    ensures
        state.waiting() + state.admitted(events) == state.taken(events) + state.run(
            events,
        ).waiting(),
    decreases events.len(),
{
    if events.len() == 0 {
        assert(state.waiting() + Seq::<PayloadView<R>>::empty() =~= Seq::<
            PayloadView<R>,
        >::empty() + state.waiting());
    } else {
        let next = state.after(events[0]);
        let rest = events.drop_first();
        lemma_first_in_first_served(next, rest);
        assert(state.waiting() + state.admits(events[0]) =~= state.takes_up(events[0])
            + next.waiting());
        assert(state.waiting() + (state.admits(events[0]) + next.admitted(rest)) =~= (
        state.waiting() + state.admits(events[0])) + next.admitted(rest));
        assert((state.takes_up(events[0]) + next.waiting()) + next.admitted(rest)
            =~= state.takes_up(events[0]) + (next.waiting() + next.admitted(rest)));
        assert(state.takes_up(events[0]) + (next.taken(rest) + next.run(rest).waiting()) =~= (
        state.takes_up(events[0]) + next.taken(rest)) + next.run(rest).waiting());
    }
}

/// Exchanges are initiated in the order of admission: the payloads whose
/// exchange is initiated over a series of events are those with a usable
/// target among the payloads taken in hand, in the same order.
pub proof fn lemma_initiated_in_order<R>(state: ClientView<R>, events: Seq<Event<R>>)
    ensures
        state.initiated(events) == usable(state.taken(events)),
    decreases events.len(),
{
    if events.len() > 0 {
        let next = state.after(events[0]);
        let rest = events.drop_first();
        lemma_initiated_in_order(next, rest);
        let first = state.takes_up(events[0]);
        if first.len() == 0 {
            assert(first + next.taken(rest) =~= next.taken(rest));
            assert(state.initiates(events[0]) + next.initiated(rest) =~= next.initiated(rest));
        } else {
            assert((first + next.taken(rest)).drop_first() =~= next.taken(rest));
            if !valid_target(first[0].request.url) {
                assert(state.initiates(events[0]) + next.initiated(rest) =~= next.initiated(
                    rest,
                ));
            }
        }
    }
}

/// An answer with a status in the success range and a body that is text is
/// delivered as that text, and the dispatcher is then free for the payload
/// that comes next.
pub proof fn lemma_success_is_delivered<R>(state: ClientView<R>, status: u16, bytes: Seq<u8>)
    requires
        state.well_formed(),
        state.busy,
        success(status),
        text_of(bytes) is Ok,
    ensures
        classified(TransportOutcomeView::Response { status, bytes }) == text_of(bytes),
        !state.after(Event::Complete).busy,
        state.after(Event::Complete).pending == state.pending.drop_first(),
        state.after(Event::Complete).takes() <==> state.pending.len() > 1,
{
}

/// An answer with a status outside the success range and a body that is
/// text is delivered as an `Api` failure with that status, which carries the
/// structured message of the body, or else the fallback code with the body
/// as it came.
pub proof fn lemma_failure_status_is_reported(status: u16, bytes: Seq<u8>)
    requires
        !success(status),
        text_of(bytes) is Ok,
    ensures
        ({
            let body = text_of(bytes)->Ok_0;
            classified(TransportOutcomeView::Response { status, bytes }) == Err::<
                Seq<char>,
                ErrorView,
            >(
                ErrorView::Api(
                    status,
                    Some(
                        match decoded_message(body) {
                            Some(message) => message,
                            None => ErrorMessageView { code: FALLBACK_CODE, message: body },
                        },
                    ),
                ),
            )
        }),
{
}

} // verus!
