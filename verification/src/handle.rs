//! The caller's side of the client: one logical call, its raw exchanges
//! through the dispatcher's queue, and the retry policy over them.

use vstd::prelude::*;
use vstd::string::StringExecFns;
use crate::error::{result_view, ClientResult, Error, ErrorView};
use crate::request::{authorization, headers_view, Header, Method, Request, RequestView};

verus! {

/// What became of one trip of a payload through the queue.
#[derive(Debug, PartialEq, Eq)]
pub enum Exchange {
    /// The dispatcher delivered a reply.
    Replied(ClientResult),
    /// The payload could not be put on the queue; the text says why.
    QueueClosed(String),
    /// The reply channel broke before a reply arrived; the text says why.
    ReplyLost(String),
}

/// Mathematical model of [`Exchange`].
pub enum ExchangeView {
    Replied(Result<Seq<char>, ErrorView>),
    QueueClosed(Seq<char>),
    ReplyLost(Seq<char>),
}

impl View for Exchange {
    type V = ExchangeView;

    open spec fn view(&self) -> ExchangeView {
        match *self {
            Exchange::Replied(result) => ExchangeView::Replied(result_view(result)),
            Exchange::QueueClosed(reason) => ExchangeView::QueueClosed(reason@),
            Exchange::ReplyLost(reason) => ExchangeView::ReplyLost(reason@),
        }
    }
}

/// The raw result of an exchange: the reply, or the failure of the plumbing.
pub open spec fn raw_result(exchange: ExchangeView) -> Result<Seq<char>, ErrorView> {
    match exchange {
        ExchangeView::Replied(result) => result,
        ExchangeView::QueueClosed(reason) => Err(
            ErrorView::Unknown(
                "Unexpected error sending http client request params to channel: "@ + reason,
            ),
        ),
        ExchangeView::ReplyLost(reason) => Err(
            ErrorView::Unknown(
                "Unexpected error receiving http client response from channel: "@ + reason,
            ),
        ),
    }
}

/// One logical call in progress: what is sent on every attempt, how many
/// further attempts the budget allows, and the last transport failure seen.
#[derive(Debug, Clone, PartialEq, Eq)]
pub struct Call {
    request: Request,
    remaining: usize,
    last_err: Option<Error>,
}

/// Mathematical model of [`Call`].
pub struct CallView {
    pub request: RequestView,
    pub remaining: nat,
    pub last_err: Option<ErrorView>,
}

impl View for Call {
    type V = CallView;

    closed spec fn view(&self) -> CallView {
        CallView {
            request: self.request@,
            remaining: self.remaining as nat,
            last_err: match self.last_err {
                Some(error) => Some(error@),
                None => None,
            },
        }
    }
}

/// How a call goes on after an attempt.
#[derive(Debug, PartialEq, Eq)]
pub enum Attempt {
    /// Send the same request once more.
    Retry(Call),
    /// The call is over, with this result.
    Done(ClientResult),
}

/// Mathematical model of [`Attempt`].
pub enum AttemptView {
    Retry(CallView),
    Done(Result<Seq<char>, ErrorView>),
}

impl View for Attempt {
    type V = AttemptView;

    open spec fn view(&self) -> AttemptView {
        match *self {
            Attempt::Retry(call) => AttemptView::Retry(call@),
            Attempt::Done(result) => AttemptView::Done(result_view(result)),
        }
    }
}

/// The failure of a call whose budget is used up: the last failure seen,
/// or an `Unknown` failure where none was recorded.
pub open spec fn exhausted(last_err: Option<ErrorView>) -> ErrorView {
    match last_err {
        Some(error) => error,
        None => ErrorView::Unknown("Unexpected missing error in send_request_with_retries"@),
    }
}

impl CallView {
    /// A call that has made no attempt yet.
    pub open spec fn fresh(request: RequestView, budget: nat) -> CallView {
        CallView { request, remaining: budget, last_err: None }
    }

    /// How the call goes on after the raw result of an attempt. Success
    /// ends it. A transport failure is recorded; it costs one unit of the
    /// budget and the same request is sent again, or ends the call where
    /// the budget is used up. Any other failure ends the call at once.
    pub open spec fn after(self, reply: Result<Seq<char>, ErrorView>) -> AttemptView {
        match reply {
            Ok(body) => AttemptView::Done(Ok(body)),
            Err(error) => if !error.is_network() {
                AttemptView::Done(Err(error))
            } else if self.remaining > 0 {
                AttemptView::Retry(
                    CallView {
                        request: self.request,
                        remaining: (self.remaining - 1) as nat,
                        last_err: Some(error),
                    },
                )
            } else {
                AttemptView::Done(Err(exhausted(Some(error))))
            },
        }
    }
}

impl Call {
    /// The request that every attempt of the call sends.
    pub fn request(&self) -> (r: &Request)
        ensures
            r@ == self@.request,
    {
        &self.request
    }

    /// How many further attempts the budget allows.
    pub fn retries_left(&self) -> (r: usize)
        ensures
            r == self@.remaining,
    {
        self.remaining
    }
}

/// A caller's capability to make calls. It carries the retry budget and no
/// state that changes, so copies are interchangeable.
#[derive(Debug, Clone, Copy, PartialEq, Eq)]
pub struct ClientHandle {
    max_retries: usize,
}

impl ClientHandle {
    /// A handle with the given retry budget.
    pub(crate) fn new(max_retries: usize) -> (r: ClientHandle)
        ensures
            r.budget() == max_retries,
    {
        ClientHandle { max_retries }
    }

    /// The retry budget of every call made through the handle.
    pub closed spec fn budget(self) -> nat {
        self.max_retries as nat
    }

    /// Starts a call that carries an optional authorization token, folded
    /// into a single header.
    pub fn request_with_auth_header(
        &self,
        method: Method,
        url: String,
        body: Option<String>,
        auth_data: Option<String>,
    ) -> (r: Call)
        ensures
            r@ == CallView::fresh(
                RequestView {
                    method: method@,
                    url: url@,
                    body: match body {
                        Some(body) => Some(body@),
                        None => None,
                    },
                    headers: match auth_data {
                        Some(token) => Some(authorization(token@)),
                        None => None,
                    },
                },
                self.budget(),
            ),
    {
        self.request(method, url, body, Request::auth_headers(auth_data))
    }

    /// Starts a call: no attempt made yet, the whole budget at hand.
    pub fn request(
        &self,
        method: Method,
        url: String,
        body: Option<String>,
        headers: Option<Vec<Header>>,
    ) -> (r: Call)
        ensures
            r@ == CallView::fresh(
                RequestView {
                    method: method@,
                    url: url@,
                    body: match body {
                        Some(body) => Some(body@),
                        None => None,
                    },
                    headers: match headers {
                        Some(headers) => Some(headers_view(headers@)),
                        None => None,
                    },
                },
                self.budget(),
            ),
    {
        Call {
            request: Request::new(method, url, body, headers),
            remaining: self.max_retries,
            last_err: None,
        }
    }

    /// The raw result of one exchange. A queue that could not take the
    /// payload and a reply channel that broke are failures of the client
    /// itself.
    pub fn send_request(exchange: Exchange) -> (r: ClientResult)
        ensures
            result_view(r) == raw_result(exchange@),
    {
        match exchange {
            Exchange::Replied(result) => result,
            Exchange::QueueClosed(reason) => {
                let mut text = String::from_str(
                    "Unexpected error sending http client request params to channel: ",
                );
                text.append(reason.as_str());
                Err(Error::Unknown(text))
            },
            Exchange::ReplyLost(reason) => {
                let mut text = String::from_str(
                    "Unexpected error receiving http client response from channel: ",
                );
                text.append(reason.as_str());
                Err(Error::Unknown(text))
            },
        }
    }

    /// The failure of a call whose budget is used up.
    pub fn exhausted_error(last_err: Option<Error>) -> (r: Error)
        ensures
            r@ == exhausted(
                match last_err {
                    Some(error) => Some(error@),
                    None => None,
                },
            ),
    {
        match last_err {
            Some(error) => error,
            None => Error::Unknown(
                String::from_str("Unexpected missing error in send_request_with_retries"),
            ),
        }
    }

    /// Applies the retry policy to the raw result of an attempt.
    pub fn send_request_with_retries(call: Call, reply: ClientResult) -> (r: Attempt)
        ensures
            r@ == call@.after(result_view(reply)),
    {
        match reply {
            Ok(body) => Attempt::Done(Ok(body)),
            Err(error) => {
                if !error.is_network() {
                    Attempt::Done(Err(error))
                } else if call.remaining > 0 {
                    Attempt::Retry(
                        Call {
                            request: call.request,
                            remaining: call.remaining - 1,
                            last_err: Some(error),
                        },
                    )
                } else {
                    Attempt::Done(Err(ClientHandle::exhausted_error(Some(error))))
                }
            },
        }
    }

    /// Reports the outcome of decoding a successful body into the type that
    /// the caller asked for: a body that does not decode is a `Parse`
    /// failure with the decoder's description.
    pub fn decoded<T>(outcome: Result<T, String>) -> (r: Result<T, Error>)
        ensures
            match outcome {
                Ok(value) => r == Ok::<T, Error>(value),
                Err(reason) => r matches Err(error) && error@ == ErrorView::Parse(reason@),
            },
    {
        match outcome {
            Ok(value) => Ok(value),
            Err(reason) => Err(Error::Parse(reason)),
        }
    }
}

/// The course of a call: the requests that its attempts sent, in order,
/// and its result once it is over.
pub struct Course {
    pub requests: Seq<RequestView>,
    pub result: Option<Result<Seq<char>, ErrorView>>,
}

impl CallView {
    /// The course that the call takes when its attempts get the given raw
    /// results, in order. Results that come after the end of the call are
    /// not asked for.
    pub open spec fn course(self, replies: Seq<Result<Seq<char>, ErrorView>>) -> Course
        decreases replies.len(),
    {
        if replies.len() == 0 {
            Course { requests: Seq::empty(), result: None }
        } else {
            match self.after(replies[0]) {
                AttemptView::Done(result) => Course {
                    requests: seq![self.request],
                    result: Some(result),
                },
                AttemptView::Retry(next) => {
                    let later = next.course(replies.drop_first());
                    Course { requests: seq![self.request] + later.requests, result: later.result }
                },
            }
        }
    }
}

/// A successful exchange ends the call with its body, whatever the budget.
pub proof fn lemma_success_ends_call(call: CallView, body: Seq<char>)
    ensures
        call.after(Ok(body)) == AttemptView::Done(Ok(body)),
{
}

/// A transport failure met with budget at hand is retried: the same
/// request is sent again, the budget is smaller by exactly one, and the
/// failure is kept as the last one seen.
pub proof fn lemma_transport_failure_is_retried(call: CallView, error: ErrorView)
    requires
        error.is_network(),
        call.remaining > 0,
    ensures
        call.after(Err(error)) == AttemptView::Retry(
            CallView {
                request: call.request,
                remaining: (call.remaining - 1) as nat,
                last_err: Some(error),
            },
        ),
{
}

/// A failure that is no transport failure ends the call at once with that
/// failure, whatever the budget: one attempt is made and no more.
pub proof fn lemma_other_failures_are_final(
    call: CallView,
    error: ErrorView,
    later: Seq<Result<Seq<char>, ErrorView>>,
)
    requires
        !error.is_network(),
    ensures
        call.after(Err(error)) == AttemptView::Done(Err(error)),
        call.course(seq![Err(error)] + later) == (Course {
            requests: seq![call.request],
            result: Some(Err(error)),
        }),
{
    let replies = seq![Err::<Seq<char>, ErrorView>(error)] + later;
    assert(replies[0] == Err::<Seq<char>, ErrorView>(error));
}

/// Every attempt of a call sends the request that the call was started
/// with.
pub proof fn lemma_attempts_send_same_request(
    call: CallView,
    replies: Seq<Result<Seq<char>, ErrorView>>,
    i: int,
)
    requires
        0 <= i < call.course(replies).requests.len(),
    ensures
        call.course(replies).requests[i] == call.request,
    decreases replies.len(),
{
    if replies.len() > 0 {
        match call.after(replies[0]) {
            AttemptView::Done(_) => {},
            AttemptView::Retry(next) => {
                if i > 0 {
                    lemma_attempts_send_same_request(next, replies.drop_first(), i - 1);
                }
            },
        }
    }
}

/// A call whose every exchange fails in the transport makes one attempt and
/// then as many further ones as its budget allows, and ends with the last
/// failure seen.
pub proof fn lemma_budget_bounds_attempts(
    call: CallView,
    replies: Seq<Result<Seq<char>, ErrorView>>,
)
    requires
        replies.len() > call.remaining,
        forall|i: int|
            0 <= i <= call.remaining ==> (#[trigger] replies[i]) is Err
                && replies[i]->Err_0.is_network(),
    ensures
        call.course(replies).requests.len() == call.remaining + 1,
        call.course(replies).result == Some(replies[call.remaining as int]),
    decreases replies.len(),
{
    assert(replies[0] is Err && replies[0]->Err_0.is_network());
    match call.after(replies[0]) {
        AttemptView::Done(_) => {},
        AttemptView::Retry(next) => {
            let rest = replies.drop_first();
            assert forall|i: int| 0 <= i <= next.remaining implies (#[trigger] rest[i]) is Err
                && rest[i]->Err_0.is_network() by {
                assert(rest[i] == replies[i + 1]);
            }
            lemma_budget_bounds_attempts(next, rest);
            assert(rest[next.remaining as int] == replies[call.remaining as int]);
        },
    }
}

} // verus!
