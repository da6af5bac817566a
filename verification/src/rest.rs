//! The authenticated request layer. Every call to the resource API goes
//! through it: a request is prepared here, sent by the program, and its
//! answer is read here.

use vstd::prelude::*;
use vstd::string::*;
use crate::error::{Error, ErrorView};
use crate::text::joined;
use crate::http::{is_success, success};
use crate::weburl::{join, parse, url_joined, url_normalized};

verus! {

/// The request methods that the resource API is called with.
#[derive(Debug, Clone, Copy, PartialEq, Eq, Structural)]
pub enum Method {
    Get,
    Post,
    Put,
}

/// What can be sent as the body of a request.
pub trait Input {
    /// The body, as bytes.
    fn to_json(&self) -> Result<Vec<u8>, Error>;
}

/// What can be read from the body of a response.
pub trait Output: Sized {
    /// The value that the bytes hold.
    fn from_json(b: &[u8]) -> Result<Self, Error>;
}

/// No content: a request without a body, or a response whose body does not
/// matter.
#[derive(Debug, Clone, Copy, PartialEq, Eq, Structural)]
pub struct Empty;

impl Input for Empty {
    /// Always the body of length zero.
    fn to_json(&self) -> (r: Result<Vec<u8>, Error>)
        ensures
            r matches Ok(body) && body@.len() == 0,
    {
        Ok(Vec::new())
    }
}

impl Output for Empty {
    /// Succeeds whatever the body holds.
    fn from_json(b: &[u8]) -> (r: Result<Self, Error>)
        ensures
            r is Ok,
    {
        Ok(Empty)
    }
}

/// The content of a response that may come without a body.
#[derive(Debug, PartialEq, Eq)]
pub enum MayBeEmpty<T> {
    /// The body held a value.
    Present(T),
    /// The body had length zero.
    Empty,
}

/// A decoded body as the present variant; a failure stays a failure.
pub open spec fn present<T>(decoded: Result<T, Error>) -> Result<MayBeEmpty<T>, Error> {
    match decoded {
        Ok(value) => Ok(MayBeEmpty::Present(value)),
        Err(e) => Err(e),
    }
}

impl<T> MayBeEmpty<T> {
    /// Wraps what decoding a body of some length gave.
    pub fn wrap(decoded: Result<T, Error>) -> (r: Result<Self, Error>)
        ensures
            r == present(decoded),
    {
        match decoded {
            Ok(value) => Ok(MayBeEmpty::Present(value)),
            Err(e) => Err(e),
        }
    }
}

impl<T: Output> Output for MayBeEmpty<T> {
    /// A body of length zero is the empty variant. Any other body is read as
    /// a `T`, and what that gives is the present variant or the failure.
    fn from_json(b: &[u8]) -> (r: Result<Self, Error>)
        ensures
            b@.len() == 0 ==> r == Ok::<Self, Error>(MayBeEmpty::Empty),
            b@.len() != 0 ==> exists|decoded: Result<T, Error>|
                call_ensures(T::from_json, (b,), decoded) && r == #[trigger] present(decoded),
    {
        if b.len() == 0 {
            return Ok(MayBeEmpty::Empty);
        }
        let decoded = T::from_json(b);
        Self::wrap(decoded)
    }
}

/// A request that is ready to be sent.
#[derive(Debug, PartialEq, Eq)]
pub struct Request {
    pub method: Method,
    pub url: String,
    /// Value of the `Authorization` header.
    pub authorization: String,
    /// Value of the `Content-Length` header.
    pub content_length: usize,
    pub body: Vec<u8>,
}

/// A `Request` as plain values.
pub struct RequestView {
    pub method: Method,
    pub url: Seq<char>,
    pub authorization: Seq<char>,
    pub content_length: nat,
    pub body: Seq<u8>,
}

impl View for Request {
    type V = RequestView;

    open spec fn view(&self) -> RequestView {
        RequestView {
            method: self.method,
            url: self.url@,
            authorization: self.authorization@,
            content_length: self.content_length as nat,
            body: self.body@,
        }
    }
}

/// What the program read of a response: the body as text where the status
/// was a refusal, as bytes otherwise.
#[derive(Debug, PartialEq, Eq)]
pub enum Content<'a> {
    Text(String),
    Bytes(&'a [u8]),
}

/// A client of the resource API: the origin it talks to and the access token
/// it presents.
#[derive(Debug)]
pub struct RestClient {
    base: String,
    token: String,
}

/// A `RestClient` as plain values.
pub struct RestClientView {
    pub base: Seq<char>,
    pub token: Seq<char>,
}

impl View for RestClient {
    type V = RestClientView;

    closed spec fn view(&self) -> RestClientView {
        RestClientView { base: self.base@, token: self.token@ }
    }
}

impl RestClientView {
    /// The request that this client sends to `url` with the given body: it
    /// presents the token as a bearer credential and states the body's
    /// length.
    pub open spec fn prepared(self, url: Seq<char>, method: Method, body: Seq<u8>) -> RequestView {
        RequestView {
            method,
            url,
            authorization: "Bearer "@ + self.token,
            content_length: body.len(),
            body,
        }
    }

    /// The outcome of preparing a request, given what resolving the path and
    /// encoding the input gave. A path that does not resolve fails first.
    pub open spec fn requested(
        self,
        resolved: Result<Seq<char>, Seq<char>>,
        method: Method,
        encoded: Result<Seq<u8>, ErrorView>,
    ) -> Result<RequestView, ErrorView> {
        match resolved {
            Err(complaint) => Err(ErrorView::Parse(complaint)),
            Ok(url) => match encoded {
                Err(e) => Err(e),
                Ok(body) => Ok(self.prepared(url, method, body)),
            },
        }
    }
}

/// An encoded body, or the failure to encode, as plain values.
pub open spec fn encoded_view(encoded: Result<Vec<u8>, Error>) -> Result<Seq<u8>, ErrorView> {
    match encoded {
        Ok(body) => Ok(body@),
        Err(e) => Err(e@),
    }
}

/// A request, or the failure to prepare one, as plain values.
pub open spec fn request_view(r: Result<Request, Error>) -> Result<RequestView, ErrorView> {
    match r {
        Ok(request) => Ok(request@),
        Err(e) => Err(e@),
    }
}

impl RestClient {
    /// A client for the API at `api_endpoint` that presents `token`.
    ///
    /// Fails exactly when the endpoint is not a URL; the client keeps the
    /// endpoint in the form in which the URL parser writes it.
    pub fn new(api_endpoint: &str, token: String) -> (r: Result<Self, Error>)
        ensures
            match url_normalized(api_endpoint@) {
                Ok(base) => r matches Ok(client) && client@ == (RestClientView {
                    base,
                    token: token@,
                }),
                Err(complaint) => r matches Err(e) && e@ == ErrorView::Config(complaint),
            },
    {
        match parse(api_endpoint) {
            Ok(base) => Ok(RestClient { base, token }),
            Err(complaint) => Err(Error::Config(complaint)),
        }
    }

    /// The request to `url` with an input that is encoded already, or the
    /// failure that encoding it gave.
    pub fn prepare(&self, url: String, method: Method, encoded: Result<Vec<u8>, Error>) -> (r:
        Result<Request, Error>)
        ensures
            request_view(r) == self@.requested(Ok(url@), method, encoded_view(encoded)),
    {
        match encoded {
            Err(e) => Err(e),
            Ok(body) => {
                let authorization = joined("Bearer ", self.token.as_str());
                let content_length = body.len();
                Ok(Request { method, url, authorization, content_length, body })
            },
        }
    }

    /// Prepares the request for `path` with the input `req`.
    ///
    /// The path is resolved against the client's origin; where it does not
    /// resolve, that is the failure. Otherwise the outcome is what `prepare`
    /// makes of the encoded input, whatever encoding gave.
    pub fn request<I: Input>(&self, path: &str, method: Method, req: &I) -> (r: Result<
        Request,
        Error,
    >)
        ensures
            match url_joined(self@.base, path@) {
                Err(complaint) => r matches Err(e) && e@ == ErrorView::Parse(complaint),
                Ok(url) => exists|encoded: Result<Vec<u8>, Error>|
                    call_ensures(I::to_json, (req,), encoded) && request_view(r)
                        == #[trigger] self@.requested(Ok(url), method, encoded_view(encoded)),
            },
    {
        let url = match join(self.base.as_str(), path) {
            Ok(url) => url,
            Err(complaint) => {
                return Err(Error::Parse(complaint));
            },
        };
        let encoded = req.to_json();
        self.prepare(url, method, encoded)
    }

    /// The origin that the client talks to, as the URL parser writes it.
    pub fn base(&self) -> (base: &str)
        ensures
            base@ == self@.base,
    {
        self.base.as_str()
    }

    /// Whether the body of a response with this status is to be read as
    /// text: it is where the status is a refusal, that is, any status outside
    /// 200 to 299.
    pub fn reads_text(status: u16) -> (text: bool)
        ensures
            text == !success(status),
    {
        !is_success(status)
    }

    /// Reads a response, given its status, the text of its status line and
    /// its body.
    ///
    /// A refusal is the failure that carries the status line and the body
    /// unchanged, whatever the call was. Any other response is decoded as an
    /// `O`, and what that gives is the result. A body that was read in the
    /// form that the status does not ask for is unexpected.
    pub fn response<O: Output>(status: u16, reason: String, content: Content) -> (r: Result<
        O,
        Error,
    >)
        ensures
            match content {
                Content::Text(text) => r matches Err(e) && e@ == (if success(status) {
                    ErrorView::Unexpected
                } else {
                    ErrorView::Api { status: reason@, body: text@ }
                }),
                Content::Bytes(bytes) => if success(status) {
                    call_ensures(O::from_json, (bytes,), r)
                } else {
                    r matches Err(e) && e@ == ErrorView::Unexpected
                },
            },
    {
        let refused = Self::reads_text(status);
        match content {
            Content::Text(text) => {
                if refused {
                    Err(Self::failure(reason, text))
                } else {
                    Err(Error::Unexpected)
                }
            },
            Content::Bytes(bytes) => {
                if refused {
                    Err(Error::Unexpected)
                } else {
                    O::from_json(bytes)
                }
            },
        }
    }

    /// The failure that a refusal by the resource API amounts to. It carries
    /// the status and the response body unchanged.
    pub fn failure(status: String, body: String) -> (error: Error)
        ensures
            error@ == (ErrorView::Api { status: status@, body: body@ }),
    {
        Error::Api { status, body }
    }
}

} // verus!
