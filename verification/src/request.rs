//! What one outbound request consists of.

use vstd::prelude::*;
use vstd::string::StringExecFns;

verus! {

/// The method of a request.
#[derive(Debug, Clone, PartialEq, Eq)]
pub enum Method {
    Options,
    Get,
    Post,
    Put,
    Delete,
    Head,
    Trace,
    Connect,
    Patch,
    /// A method outside the common set, by its name.
    Extension(String),
}

/// Mathematical model of [`Method`].
pub enum MethodView {
    Options,
    Get,
    Post,
    Put,
    Delete,
    Head,
    Trace,
    Connect,
    Patch,
    Extension(Seq<char>),
}

impl View for Method {
    type V = MethodView;

    open spec fn view(&self) -> MethodView {
        match *self {
            Method::Options => MethodView::Options,
            Method::Get => MethodView::Get,
            Method::Post => MethodView::Post,
            Method::Put => MethodView::Put,
            Method::Delete => MethodView::Delete,
            Method::Head => MethodView::Head,
            Method::Trace => MethodView::Trace,
            Method::Connect => MethodView::Connect,
            Method::Patch => MethodView::Patch,
            Method::Extension(name) => MethodView::Extension(name@),
        }
    }
}

/// One header line of a request.
#[derive(Debug, Clone, PartialEq, Eq)]
pub struct Header {
    pub name: String,
    pub value: String,
}

/// Mathematical model of [`Header`].
pub struct HeaderView {
    pub name: Seq<char>,
    pub value: Seq<char>,
}

impl View for Header {
    type V = HeaderView;

    open spec fn view(&self) -> HeaderView {
        HeaderView { name: self.name@, value: self.value@ }
    }
}

/// The models of a list of headers, in order.
pub open spec fn headers_view(headers: Seq<Header>) -> Seq<HeaderView> {
    headers.map_values(|header: Header| header@)
}

/// The header set that carries an authorization token and nothing else.
pub open spec fn authorization(token: Seq<char>) -> Seq<HeaderView> {
    seq![HeaderView { name: "Authorization"@, value: token }]
}

/// A pending request: method, target, and the optional body and header set.
#[derive(Debug, Clone, PartialEq, Eq)]
pub struct Request {
    pub method: Method,
    pub url: String,
    pub body: Option<String>,
    pub headers: Option<Vec<Header>>,
}

/// Mathematical model of [`Request`].
pub struct RequestView {
    pub method: MethodView,
    pub url: Seq<char>,
    pub body: Option<Seq<char>>,
    pub headers: Option<Seq<HeaderView>>,
}

impl View for Request {
    type V = RequestView;

    open spec fn view(&self) -> RequestView {
        RequestView {
            method: self.method@,
            url: self.url@,
            body: match self.body {
                Some(body) => Some(body@),
                None => None,
            },
            headers: match self.headers {
                Some(headers) => Some(headers_view(headers@)),
                None => None,
            },
        }
    }
}

impl Request {
    /// A request with the given parts.
    pub fn new(method: Method, url: String, body: Option<String>, headers: Option<Vec<Header>>) -> (r:
        Request)
        ensures
            r.method == method,
            r.url == url,
            r.body == body,
            r.headers == headers,
    {
        Request { method, url, body, headers }
    }

    /// The header set for an optional authorization token: the single
    /// header `Authorization` with the token as its value, or no header set
    /// where there is no token.
    pub fn auth_headers(auth_data: Option<String>) -> (r: Option<Vec<Header>>)
        ensures
            match auth_data {
                Some(token) => r is Some && headers_view(r.unwrap()@) == authorization(token@),
                None => r is None,
            },
    {
        match auth_data {
            Some(token) => {
                let mut headers: Vec<Header> = Vec::new();
                headers.push(Header { name: String::from_str("Authorization"), value: token });
                assert(headers_view(headers@) =~= authorization(token@));
                Some(headers)
            },
            None => None,
        }
    }
}

/// A request on its way through the queue, with the channel on which its
/// one reply is delivered.
#[derive(Debug)]
pub struct Payload<R> {
    pub request: Request,
    pub callback: R,
}

/// Mathematical model of [`Payload`].
pub struct PayloadView<R> {
    pub request: RequestView,
    pub callback: R,
}

impl<R> View for Payload<R> {
    type V = PayloadView<R>;

    open spec fn view(&self) -> PayloadView<R> {
        PayloadView { request: self.request@, callback: self.callback }
    }
}

} // verus!
