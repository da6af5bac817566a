//! The loopback listener's decisions. The program accepts one connection on
//! the redirect address and reports each request's target here; this module
//! says how to answer it, and whether the authorization code has arrived.

use vstd::prelude::*;
use vstd::string::*;
use crate::error::{Error, ErrorView};
use crate::text::same_text;
use crate::weburl::{
    host,
    port,
    reference_query,
    url_host,
    url_normalized,
    url_port,
    url_reference_query,
};

verus! {

/// The port to listen on where the redirect URI names none.
pub const DEFAULT_PORT: u16 = 80;

/// The URL against which a request's target is resolved. Only the target's
/// query is read, so the host stands for nothing.
pub const REQUEST_BASE: &'static str = "http://example.com/";

/// Status of the answer to the request that delivered the code.
pub const STATUS_OK: u16 = 200;

/// Status of the answer to any other request.
pub const STATUS_NO_CONTENT: u16 = 204;

/// The value that a query gives to `name`: where the name occurs more than
/// once, the last occurrence counts.
pub open spec fn lookup(pairs: Seq<(Seq<char>, Seq<char>)>, name: Seq<char>) -> Option<Seq<char>>
    decreases pairs.len(),
{
    if pairs.len() == 0 {
        None
    } else if pairs.last().0 == name {
        Some(pairs.last().1)
    } else {
        lookup(pairs.drop_last(), name)
    }
}

/// Finds the value that a query gives to `name`.
pub fn find(pairs: &Vec<(String, String)>, name: &str) -> (r: Option<String>)
    ensures
        r.deep_view() == lookup(pairs.deep_view(), name@),
{
    let mut i: usize = pairs.len();
    assert(pairs.deep_view().take(i as int) =~= pairs.deep_view());
    while i > 0
        invariant
            i <= pairs.len(),
            lookup(pairs.deep_view(), name@) == lookup(pairs.deep_view().take(i as int), name@),
        decreases i,
    {
        i = i - 1;
        proof {
            let upto = pairs.deep_view().take(i + 1);
            assert(upto.last() == pairs.deep_view()[i as int]);
            assert(upto.drop_last() =~= pairs.deep_view().take(i as int));
        }
        if same_text(pairs[i].0.as_str(), name) {
            return Some(pairs[i].1.clone());
        }
    }
    None
}

/// Where to listen for the redirect: the host of the redirect URI, and its
/// port or 80. There is no such place where the URI does not parse or has no
/// host.
pub open spec fn listen_address_of(redirect_uri: Seq<char>) -> Result<(Seq<char>, u16), ErrorView> {
    match url_normalized(redirect_uri) {
        Err(complaint) => Err(ErrorView::Config(complaint)),
        Ok(_) => match url_host(redirect_uri) {
            None => Err(ErrorView::Config("redirect URI without a host"@)),
            Some(host) => Ok(
                (
                    host,
                    match url_port(redirect_uri) {
                        Some(port) => port,
                        None => DEFAULT_PORT,
                    },
                ),
            ),
        },
    }
}

/// Works out the address on which to listen for the redirect.
pub fn listen_address(redirect_uri: &str) -> (r: Result<(String, u16), Error>)
    ensures
        match r {
            Ok((host, port)) => Ok::<(Seq<char>, u16), ErrorView>((host@, port)),
            Err(e) => Err(e@),
        } == listen_address_of(redirect_uri@),
{
    let name = match host(redirect_uri) {
        Err(complaint) => {
            return Err(Error::Config(complaint));
        },
        Ok(None) => {
            return Err(Error::Config(String::from_str("redirect URI without a host")));
        },
        Ok(Some(name)) => name,
    };
    match port(redirect_uri) {
        Ok(Some(number)) => Ok((name, number)),
        Ok(None) => Ok((name, DEFAULT_PORT)),
        Err(complaint) => Err(Error::Config(complaint)),
    }
}

/// How to answer a request.
#[derive(Debug, PartialEq, Eq)]
pub enum Reply {
    /// The request brought the code: hand it to the waiting side and answer
    /// with `200` and a short confirmation.
    Deliver { code: String },
    /// The request is none of ours, or the code was delivered before: answer
    /// with `204` and an empty body, and keep waiting.
    Ignore,
}

/// A `Reply` with its code as a character sequence.
pub enum ReplyView {
    Deliver { code: Seq<char> },
    Ignore,
}

impl View for Reply {
    type V = ReplyView;

    open spec fn view(&self) -> ReplyView {
        match self {
            Reply::Deliver { code } => ReplyView::Deliver { code: code@ },
            Reply::Ignore => ReplyView::Ignore,
        }
    }
}

impl ReplyView {
    /// Status of the HTTP response.
    pub open spec fn status(self) -> u16 {
        match self {
            ReplyView::Deliver { .. } => STATUS_OK,
            ReplyView::Ignore => STATUS_NO_CONTENT,
        }
    }

    /// Body of the HTTP response.
    pub open spec fn body(self) -> Seq<char> {
        match self {
            ReplyView::Deliver { .. } => "ok"@,
            ReplyView::Ignore => ""@,
        }
    }
}

impl Reply {
    /// Status of the HTTP response.
    pub fn status(&self) -> (status: u16)
        ensures
            status == self@.status(),
    {
        match self {
            Reply::Deliver { .. } => STATUS_OK,
            Reply::Ignore => STATUS_NO_CONTENT,
        }
    }

    /// Body of the HTTP response.
    pub fn body(&self) -> (body: &'static str)
        ensures
            body@ == self@.body(),
    {
        match self {
            Reply::Deliver { .. } => "ok",
            Reply::Ignore => "",
        }
    }
}

/// The listener for one authorization attempt. It starts out waiting, and
/// stops waiting for good once a request has brought both a code and a
/// state, whether the state matched or not.
#[derive(Debug)]
pub struct CallbackServer {
    expected_state: String,
    waiting: bool,
}

/// A `CallbackServer` as plain values.
pub struct CallbackServerView {
    pub expected_state: Seq<char>,
    pub waiting: bool,
}

impl View for CallbackServer {
    type V = CallbackServerView;

    closed spec fn view(&self) -> CallbackServerView {
        CallbackServerView { expected_state: self.expected_state@, waiting: self.waiting }
    }
}

impl CallbackServerView {
    /// What a request with the query `pairs` does to the listener, and how
    /// it is answered.
    ///
    /// A request that lacks `code` or `state`, or that comes when the
    /// listener no longer waits, is ignored and changes nothing. Otherwise the
    /// listener stops waiting: with the expected state the code is
    /// delivered, with any other the attempt fails.
    pub open spec fn answer(self, pairs: Seq<(Seq<char>, Seq<char>)>) -> (
        CallbackServerView,
        Result<ReplyView, ErrorView>,
    ) {
        match (lookup(pairs, "code"@), lookup(pairs, "state"@)) {
            (Some(code), Some(state)) => if !self.waiting {
                (self, Ok(ReplyView::Ignore))
            } else if state == self.expected_state {
                (
                    CallbackServerView { waiting: false, ..self },
                    Ok(ReplyView::Deliver { code }),
                )
            } else {
                (CallbackServerView { waiting: false, ..self }, Err(ErrorView::StateMismatch))
            },
            _ => (self, Ok(ReplyView::Ignore)),
        }
    }

    /// What a request with the given target does to the listener, and how it
    /// is answered. A target that cannot be resolved fails the attempt and
    /// changes nothing.
    pub open spec fn serve(self, target: Seq<char>) -> (
        CallbackServerView,
        Result<ReplyView, ErrorView>,
    ) {
        match url_reference_query(REQUEST_BASE@, target) {
            Ok(pairs) => self.answer(pairs),
            Err(complaint) => (self, Err(ErrorView::Parse(complaint))),
        }
    }

    /// Number of codes delivered while answering `requests` in order.
    pub open spec fn deliveries(self, requests: Seq<Seq<(Seq<char>, Seq<char>)>>) -> nat
        decreases requests.len(),
    {
        if requests.len() == 0 {
            0
        } else {
            let (next, reply) = self.answer(requests.first());
            (if reply matches Ok(ReplyView::Deliver { .. }) {
                1nat
            } else {
                0nat
            }) + next.deliveries(requests.drop_first())
        }
    }
}

/// A result of a reply, as plain values.
pub open spec fn reply_result(r: Result<Reply, Error>) -> Result<ReplyView, ErrorView> {
    match r {
        Ok(reply) => Ok(reply@),
        Err(e) => Err(e@),
    }
}

impl CallbackServer {
    /// A listener that waits for a redirect with the given state.
    pub fn new(expected_state: String) -> (server: Self)
        ensures
            server@ == (CallbackServerView { expected_state: expected_state@, waiting: true }),
    {
        CallbackServer { expected_state, waiting: true }
    }

    /// Whether a code can still be delivered.
    pub fn is_waiting(&self) -> (waiting: bool)
        ensures
            waiting == self@.waiting,
    {
        self.waiting
    }

    /// Decides how to answer a request with the query `pairs`.
    pub fn answer(&mut self, pairs: &Vec<(String, String)>) -> (r: Result<Reply, Error>)
        ensures
            (final(self)@, reply_result(r)) == old(self)@.answer(pairs.deep_view()),
    {
        let code = find(pairs, "code");
        let state = find(pairs, "state");
        match (code, state) {
            (Some(code), Some(state)) => {
                if !self.waiting {
                    Ok(Reply::Ignore)
                } else {
                    self.waiting = false;
                    if state == self.expected_state {
                        Ok(Reply::Deliver { code })
                    } else {
                        Err(Error::StateMismatch)
                    }
                }
            },
            _ => Ok(Reply::Ignore),
        }
    }

    /// Decides how to answer a request with the given target.
    pub fn serve(&mut self, target: &str) -> (r: Result<Reply, Error>)
        ensures
            (final(self)@, reply_result(r)) == old(self)@.serve(target@),
    {
        match reference_query(REQUEST_BASE, target) {
            Ok(pairs) => self.answer(&pairs),
            Err(complaint) => Err(Error::Parse(complaint)),
        }
    }
}

/// Which of the two racing sides finished first.
#[derive(Debug, PartialEq, Eq)]
pub enum Finished {
    /// The waiting side: it holds the code that was handed over, or nothing
    /// where the handoff was given up without one.
    Handoff(Option<String>),
    /// The serving side: the connection is over, in order or with a failure.
    Served(Result<(), Error>),
}

/// How the wait for the redirect ends, given the side that finished first.
///
/// A code that was handed over is the result. A handoff given up without a
/// code means that the state did not match. A connection that ended in
/// order delivered no code.
pub open spec fn conclusion(
    handoff: Option<Option<Seq<char>>>,
    served: Option<Result<(), ErrorView>>,
) -> Result<Seq<char>, ErrorView> {
    match (handoff, served) {
        (Some(Some(code)), _) => Ok(code),
        (Some(None), _) => Err(ErrorView::StateMismatch),
        (None, Some(Err(e))) => Err(e),
        (None, _) => Err(ErrorView::ServerClosed),
    }
}

impl Finished {
    /// Ends the wait for the redirect.
    pub fn conclude(self) -> (r: Result<String, Error>)
        ensures
            match r {
                Ok(code) => Ok::<Seq<char>, ErrorView>(code@),
                Err(e) => Err(e@),
            } == (match self {
                Finished::Handoff(h) => conclusion(Some(h.deep_view()), None),
                Finished::Served(Ok(())) => conclusion(None, Some(Ok(()))),
                Finished::Served(Err(e)) => conclusion(None, Some(Err(e@))),
            }),
    {
        match self {
            Finished::Handoff(Some(code)) => Ok(code),
            Finished::Handoff(None) => Err(Error::StateMismatch),
            Finished::Served(Err(e)) => Err(e),
            Finished::Served(Ok(())) => Err(Error::ServerClosed),
        }
    }
}

/// Whatever requests arrive, in whatever order, at most one of them is
/// answered by delivering a code; and none is once the listener has stopped
/// waiting.
pub proof fn lemma_single_delivery(
    server: CallbackServerView,
    requests: Seq<Seq<(Seq<char>, Seq<char>)>>,
)
    ensures
        server.deliveries(requests) <= 1,
        !server.waiting ==> server.deliveries(requests) == 0,
    decreases requests.len(),
{
    if requests.len() > 0 {
        let (next, reply) = server.answer(requests.first());
        lemma_single_delivery(next, requests.drop_first());
    }
}

/// A request that brings a code and the expected state to a waiting listener
/// is answered with `200`, and the code it brought is the one delivered.
pub proof fn lemma_matching_state_delivers(
    server: CallbackServerView,
    pairs: Seq<(Seq<char>, Seq<char>)>,
    code: Seq<char>,
)
    requires
        server.waiting,
        lookup(pairs, "code"@) == Some(code),
        lookup(pairs, "state"@) == Some(server.expected_state),
    ensures
        server.answer(pairs).1 == Ok::<ReplyView, ErrorView>((ReplyView::Deliver { code })),
        (ReplyView::Deliver { code }).status() == 200,
        !server.answer(pairs).0.waiting,
{
}

/// A request that brings a code and another state than the expected one
/// fails the attempt, and after it no request delivers a code.
pub proof fn lemma_mismatch_delivers_nothing(
    server: CallbackServerView,
    pairs: Seq<(Seq<char>, Seq<char>)>,
    later: Seq<Seq<(Seq<char>, Seq<char>)>>,
)
    requires
        server.waiting,
        (lookup(pairs, "code"@) is Some),
        (lookup(pairs, "state"@) matches Some(state) && state != server.expected_state),
    ensures
        server.answer(pairs).1 == Err::<ReplyView, ErrorView>(ErrorView::StateMismatch),
        server.answer(pairs).0.deliveries(later) == 0,
{
    lemma_single_delivery(server.answer(pairs).0, later);
}

/// A request that lacks the code or the state is answered with `204` and
/// leaves the listener as it was.
pub proof fn lemma_incomplete_request_is_ignored(
    server: CallbackServerView,
    pairs: Seq<(Seq<char>, Seq<char>)>,
)
    requires
        (lookup(pairs, "code"@) is None) || (lookup(pairs, "state"@) is None),
    ensures
        server.answer(pairs) == (server, Ok::<ReplyView, ErrorView>(ReplyView::Ignore)),
        ReplyView::Ignore.status() == 204,
        ReplyView::Ignore.body().len() == 0,
{
    reveal_strlit("");
}

} // verus!
