//! The authenticator: the course of one `authenticate` or `get_token`
//! operation, as a state machine.
//!
//! The machine decides; a driver acts. Each step hands the driver one
//! `Action` to perform, and the driver reports what came of it as the next
//! `Event`. A failure of any step ends the operation: there is no retry and
//! no partial success.

use vstd::prelude::*;
use vstd::string::*;
use crate::auth::authorize::{
    authorization_request,
    authorization_url_of,
    is_state_token,
    lemma_base64url_byte_len,
    state_token,
};
use crate::auth::callback::{listen_address, listen_address_of};
use crate::auth::config::{AccessToken, AccessTokenView, AuthorizationConfig, AuthorizationConfigView};
use crate::auth::pkce::{challenge_of, derive_challenge, generate_verifier, is_verifier};
use crate::auth::token::{exchange_code, exchange_form, refresh, refresh_form, refusal};
use crate::error::{Error, ErrorView};
use crate::http::{is_success, success};
use crate::weburl::{fits, url_normalized};

verus! {

/// How far a request to the token endpoint has come.
#[derive(Debug, PartialEq, Eq)]
pub enum Stage {
    /// The form is posted; the status of the answer is awaited.
    Requested,
    /// The endpoint refused; the body of its answer is awaited.
    Refused,
    /// The endpoint granted; the record in its answer is awaited.
    Granted,
    /// The record is being written to the cache.
    Storing { token: AccessToken },
}

/// A `Stage` as plain values.
pub enum StageView {
    Requested,
    Refused,
    Granted,
    Storing { token: AccessTokenView },
}

impl View for Stage {
    type V = StageView;

    open spec fn view(&self) -> StageView {
        match self {
            Stage::Requested => StageView::Requested,
            Stage::Refused => StageView::Refused,
            Stage::Granted => StageView::Granted,
            Stage::Storing { token } => StageView::Storing { token: token@ },
        }
    }
}

/// The state of an operation.
#[derive(Debug, PartialEq, Eq)]
pub enum Flow {
    /// The authorization URL is being shown to the user.
    AwaitingUserAuthorization { verifier: String, expected_state: String },
    /// The loopback listener waits for the provider's redirect.
    AwaitingRedirect { verifier: String },
    /// The authorization code is being redeemed.
    Exchanging { stage: Stage },
    /// The cached record is being refreshed.
    Refreshing { stage: Stage },
    /// The operation succeeded; the record is in the cache.
    Authenticated { token: AccessToken },
    /// The operation failed.
    Failed { error: Error },
}

/// A `Flow` as plain values.
pub enum FlowView {
    AwaitingUserAuthorization { verifier: Seq<char>, expected_state: Seq<char> },
    AwaitingRedirect { verifier: Seq<char> },
    Exchanging { stage: StageView },
    Refreshing { stage: StageView },
    Authenticated { token: AccessTokenView },
    Failed { error: ErrorView },
}

impl View for Flow {
    type V = FlowView;

    open spec fn view(&self) -> FlowView {
        match self {
            Flow::AwaitingUserAuthorization { verifier, expected_state } => {
                FlowView::AwaitingUserAuthorization {
                    verifier: verifier@,
                    expected_state: expected_state@,
                }
            },
            Flow::AwaitingRedirect { verifier } => FlowView::AwaitingRedirect {
                verifier: verifier@,
            },
            Flow::Exchanging { stage } => FlowView::Exchanging { stage: stage@ },
            Flow::Refreshing { stage } => FlowView::Refreshing { stage: stage@ },
            Flow::Authenticated { token } => FlowView::Authenticated { token: token@ },
            Flow::Failed { error } => FlowView::Failed { error: error@ },
        }
    }
}

/// What the driver is to do next.
#[derive(Debug, PartialEq, Eq)]
pub enum Action {
    /// Show the authorization URL to the user, by whatever means the caller
    /// chose.
    PresentUrl { url: String },
    /// Listen on the address for one connection and wait for the code.
    AwaitRedirect { host: String, port: u16, expected_state: String },
    /// Post the form to the token endpoint and report the status.
    PostForm { endpoint: String, form: Vec<(String, String)> },
    /// Read the body of the answer as text.
    ReadRefusal,
    /// Read the body of the answer as a token record.
    ReadToken,
    /// Write the record to the cache.
    Store { token: AccessToken },
    /// Nothing more: the operation succeeded with this access token.
    Done { access_token: String },
    /// Nothing more: the operation failed.
    Fail { error: Error },
}

/// An `Action` as plain values.
pub enum ActionView {
    PresentUrl { url: Seq<char> },
    AwaitRedirect { host: Seq<char>, port: u16, expected_state: Seq<char> },
    PostForm { endpoint: Seq<char>, form: Seq<(Seq<char>, Seq<char>)> },
    ReadRefusal,
    ReadToken,
    Store { token: AccessTokenView },
    Done { access_token: Seq<char> },
    Fail { error: ErrorView },
}

impl View for Action {
    type V = ActionView;

    open spec fn view(&self) -> ActionView {
        match self {
            Action::PresentUrl { url } => ActionView::PresentUrl { url: url@ },
            Action::AwaitRedirect { host, port, expected_state } => ActionView::AwaitRedirect {
                host: host@,
                port: *port,
                expected_state: expected_state@,
            },
            Action::PostForm { endpoint, form } => ActionView::PostForm {
                endpoint: endpoint@,
                form: form.deep_view(),
            },
            Action::ReadRefusal => ActionView::ReadRefusal,
            Action::ReadToken => ActionView::ReadToken,
            Action::Store { token } => ActionView::Store { token: token@ },
            Action::Done { access_token } => ActionView::Done { access_token: access_token@ },
            Action::Fail { error } => ActionView::Fail { error: error@ },
        }
    }
}

/// What came of the last action.
#[derive(Debug, PartialEq, Eq)]
pub enum Event {
    /// The URL was shown.
    UrlPresented,
    /// The redirect brought this authorization code.
    Code { code: String },
    /// The token endpoint answered with this status.
    Status { status: u16 },
    /// The body of the refusal, as text.
    Refusal { body: String },
    /// The record that the token endpoint granted.
    Token { token: AccessToken },
    /// The record is written.
    Stored,
    /// The action could not be carried out.
    Failed { error: Error },
}

/// An `Event` as plain values.
pub enum EventView {
    UrlPresented,
    Code { code: Seq<char> },
    Status { status: u16 },
    Refusal { body: Seq<char> },
    Token { token: AccessTokenView },
    Stored,
    Failed { error: ErrorView },
}

impl View for Event {
    type V = EventView;

    open spec fn view(&self) -> EventView {
        match self {
            Event::UrlPresented => EventView::UrlPresented,
            Event::Code { code } => EventView::Code { code: code@ },
            Event::Status { status } => EventView::Status { status: *status },
            Event::Refusal { body } => EventView::Refusal { body: body@ },
            Event::Token { token } => EventView::Token { token: token@ },
            Event::Stored => EventView::Stored,
            Event::Failed { error } => EventView::Failed { error: error@ },
        }
    }
}

/// What was found where the token cache is kept.
#[derive(Debug, PartialEq, Eq)]
pub enum CacheLookup {
    /// No cache: the user has not authenticated yet. This is no failure.
    Absent,
    /// A cache that cannot be read as a token record.
    Malformed { complaint: String },
    /// The cached record.
    Found { token: AccessToken },
}

/// A `CacheLookup` as plain values.
pub enum CacheLookupView {
    Absent,
    Malformed { complaint: Seq<char> },
    Found { token: AccessTokenView },
}

impl View for CacheLookup {
    type V = CacheLookupView;

    open spec fn view(&self) -> CacheLookupView {
        match self {
            CacheLookup::Absent => CacheLookupView::Absent,
            CacheLookup::Malformed { complaint } => CacheLookupView::Malformed {
                complaint: complaint@,
            },
            CacheLookup::Found { token } => CacheLookupView::Found { token: token@ },
        }
    }
}

/// The failed state together with the action that reports it.
pub open spec fn failed(error: ErrorView) -> (FlowView, ActionView) {
    (FlowView::Failed { error }, ActionView::Fail { error })
}

/// The start of the interactive path with a given verifier and state: the
/// user is shown the authorization URL for the verifier's challenge. Where
/// the configured endpoint is no URL the operation fails at once.
pub open spec fn begin_login(
    config: AuthorizationConfigView,
    verifier: Seq<char>,
    state: Seq<char>,
) -> (FlowView, ActionView) {
    match authorization_url_of(config, challenge_of(verifier), state) {
        Ok(url) => (
            FlowView::AwaitingUserAuthorization { verifier, expected_state: state },
            ActionView::PresentUrl { url },
        ),
        Err(error) => failed(error),
    }
}

/// A login has started with a fresh verifier and a fresh state: the
/// operation shows the authorization URL that belongs to the two, and keeps
/// both. Where the configured endpoint is no URL, it has failed with the
/// parser's complaint instead.
pub open spec fn login_started(
    config: AuthorizationConfigView,
    flow: FlowView,
    action: ActionView,
) -> bool {
    match url_normalized(config.authorization_endpoint) {
        Err(complaint) => (flow, action) == failed(ErrorView::Config(complaint)),
        Ok(_) => {
            &&& flow matches FlowView::AwaitingUserAuthorization { verifier, expected_state }
            &&& is_verifier(verifier)
            &&& is_state_token(expected_state)
            &&& (flow, action) == begin_login(config, verifier, expected_state)
        },
    }
}

/// The start of the path that a cached record takes: it is refreshed,
/// whatever its age.
pub open spec fn begin_refresh(config: AuthorizationConfigView, token: AccessTokenView) -> (
    FlowView,
    ActionView,
) {
    (
        FlowView::Refreshing { stage: StageView::Requested },
        ActionView::PostForm {
            endpoint: config.token_endpoint,
            form: refresh_form(config, token),
        },
    )
}

/// The step that a request to the token endpoint takes on an event, given
/// its stage. `None` where the stage does not await the event.
pub open spec fn token_step(stage: StageView, event: EventView) -> Option<
    (Result<StageView, FlowView>, ActionView),
> {
    match (stage, event) {
        (StageView::Requested, EventView::Status { status }) => if success(status) {
            Some((Ok(StageView::Granted), ActionView::ReadToken))
        } else {
            Some((Ok(StageView::Refused), ActionView::ReadRefusal))
        },
        (StageView::Refused, EventView::Refusal { body }) => Some(
            (
                Err(FlowView::Failed { error: ErrorView::TokenExchange(body) }),
                ActionView::Fail { error: ErrorView::TokenExchange(body) },
            ),
        ),
        (StageView::Granted, EventView::Token { token }) => Some(
            (Ok(StageView::Storing { token }), ActionView::Store { token }),
        ),
        (StageView::Storing { token }, EventView::Stored) => Some(
            (
                Err(FlowView::Authenticated { token }),
                ActionView::Done { access_token: token.access_token },
            ),
        ),
        _ => None,
    }
}

impl FlowView {
    /// The operation is over.
    pub open spec fn is_final(self) -> bool {
        self is Authenticated || self is Failed
    }

    /// The next state and the action to perform, on an event.
    ///
    /// A finished operation stays as it is and repeats its outcome. A
    /// reported failure ends the operation with that failure. An event that
    /// the state does not await ends it as unexpected.
    pub open spec fn step(self, config: AuthorizationConfigView, event: EventView) -> (
        FlowView,
        ActionView,
    ) {
        match self {
            FlowView::Authenticated { token } => (
                self,
                ActionView::Done { access_token: token.access_token },
            ),
            FlowView::Failed { error } => (self, ActionView::Fail { error }),
            _ => match event {
                EventView::Failed { error } => failed(error),
                _ => match self {
                    FlowView::AwaitingUserAuthorization { verifier, expected_state } => match event {
                        EventView::UrlPresented => match listen_address_of(config.redirect_uri) {
                            Ok((host, port)) => (
                                FlowView::AwaitingRedirect { verifier },
                                ActionView::AwaitRedirect { host, port, expected_state },
                            ),
                            Err(error) => failed(error),
                        },
                        _ => failed(ErrorView::Unexpected),
                    },
                    FlowView::AwaitingRedirect { verifier } => match event {
                        EventView::Code { code } => (
                            FlowView::Exchanging { stage: StageView::Requested },
                            ActionView::PostForm {
                                endpoint: config.token_endpoint,
                                form: exchange_form(config, verifier, code),
                            },
                        ),
                        _ => failed(ErrorView::Unexpected),
                    },
                    FlowView::Exchanging { stage } => match token_step(stage, event) {
                        Some((Ok(next), action)) => (FlowView::Exchanging { stage: next }, action),
                        Some((Err(end), action)) => (end, action),
                        None => failed(ErrorView::Unexpected),
                    },
                    FlowView::Refreshing { stage } => match token_step(stage, event) {
                        Some((Ok(next), action)) => (FlowView::Refreshing { stage: next }, action),
                        Some((Err(end), action)) => (end, action),
                        None => failed(ErrorView::Unexpected),
                    },
                    _ => failed(ErrorView::Unexpected),
                },
            },
        }
    }

    /// The state after the events have been reported one after the other.
    pub open spec fn run(self, config: AuthorizationConfigView, events: Seq<EventView>) -> FlowView
        decreases events.len(),
    {
        if events.len() == 0 {
            self
        } else {
            self.step(config, events.first()).0.run(config, events.drop_first())
        }
    }
}

/// The failed state together with the action that reports it.
fn fail(error: Error) -> (r: (Flow, Action))
    ensures
        (r.0@, r.1@) == failed(error@),
{
    let report = error.clone();
    (Flow::Failed { error }, Action::Fail { error: report })
}

/// The step of a request to the token endpoint.
fn advance(stage: Stage, event: Event) -> (r: Option<(Result<Stage, Flow>, Action)>)
    ensures
        match r {
            Some((Ok(next), action)) => token_step(stage@, event@) == Some(
                (Ok::<StageView, FlowView>(next@), action@),
            ),
            Some((Err(end), action)) => token_step(stage@, event@) == Some(
                (Err::<StageView, FlowView>(end@), action@),
            ),
            None => token_step(stage@, event@) is None,
        },
{
    match (stage, event) {
        (Stage::Requested, Event::Status { status }) => {
            if is_success(status) {
                Some((Ok(Stage::Granted), Action::ReadToken))
            } else {
                Some((Ok(Stage::Refused), Action::ReadRefusal))
            }
        },
        (Stage::Refused, Event::Refusal { body }) => {
            let error = refusal(body);
            let report = error.clone();
            Some((Err(Flow::Failed { error }), Action::Fail { error: report }))
        },
        (Stage::Granted, Event::Token { token }) => {
            let record = token.clone();
            Some((Ok(Stage::Storing { token }), Action::Store { token: record }))
        },
        (Stage::Storing { token }, Event::Stored) => {
            let access_token = token.access_token.clone();
            Some((Err(Flow::Authenticated { token }), Action::Done { access_token }))
        },
        _ => None,
    }
}

impl Flow {
    /// Whether the operation is over.
    pub fn is_final(&self) -> (over: bool)
        ensures
            over == self@.is_final(),
    {
        match self {
            Flow::Authenticated { .. } => true,
            Flow::Failed { .. } => true,
            _ => false,
        }
    }

    /// Takes one step: given what came of the last action, moves to the next
    /// state and says what to do next.
    pub fn step(self, config: &AuthorizationConfig, event: Event) -> (r: (Flow, Action))
        ensures
            (r.0@, r.1@) == self@.step(config@, event@),
    {
        match self {
            Flow::Authenticated { token } => {
                let access_token = token.access_token.clone();
                (Flow::Authenticated { token }, Action::Done { access_token })
            },
            Flow::Failed { error } => {
                let report = error.clone();
                (Flow::Failed { error }, Action::Fail { error: report })
            },
            Flow::AwaitingUserAuthorization { verifier, expected_state } => match event {
                Event::Failed { error } => fail(error),
                Event::UrlPresented => match listen_address(config.redirect_uri.as_str()) {
                    Ok((host, port)) => (
                        Flow::AwaitingRedirect { verifier },
                        Action::AwaitRedirect { host, port, expected_state },
                    ),
                    Err(error) => fail(error),
                },
                _ => fail(Error::Unexpected),
            },
            Flow::AwaitingRedirect { verifier } => match event {
                Event::Failed { error } => fail(error),
                Event::Code { code } => {
                    let request = exchange_code(config, verifier.as_str(), code.as_str());
                    (
                        Flow::Exchanging { stage: Stage::Requested },
                        Action::PostForm { endpoint: request.endpoint, form: request.form },
                    )
                },
                _ => fail(Error::Unexpected),
            },
            Flow::Exchanging { stage } => match event {
                Event::Failed { error } => fail(error),
                event => match advance(stage, event) {
                    Some((Ok(next), action)) => (Flow::Exchanging { stage: next }, action),
                    Some((Err(end), action)) => (end, action),
                    None => fail(Error::Unexpected),
                },
            },
            Flow::Refreshing { stage } => match event {
                Event::Failed { error } => fail(error),
                event => match advance(stage, event) {
                    Some((Ok(next), action)) => (Flow::Refreshing { stage: next }, action),
                    Some((Err(end), action)) => (end, action),
                    None => fail(Error::Unexpected),
                },
            },
        }
    }

    /// The access token of an operation that succeeded.
    pub fn access_token(&self) -> (r: Option<String>)
        ensures
            r.deep_view() == (match self@ {
                FlowView::Authenticated { token } => Some(token.access_token),
                _ => None,
            }),
    {
        match self {
            Flow::Authenticated { token } => Some(token.access_token.clone()),
            _ => None,
        }
    }
}

/// Starts the interactive path with a given verifier and state.
pub fn login_with(config: &AuthorizationConfig, verifier: String, state: String) -> (r: (
    Flow,
    Action,
))
    requires
        config@.fits(),
        fits(state@),
    ensures
        (r.0@, r.1@) == begin_login(config@, verifier@, state@),
{
    let challenge = derive_challenge(verifier.as_str());
    proof {
        lemma_base64url_byte_len(challenge@);
    }
    match authorization_request(config, challenge.as_str(), state.as_str()) {
        Ok(url) => (
            Flow::AwaitingUserAuthorization { verifier, expected_state: state },
            Action::PresentUrl { url },
        ),
        Err(error) => fail(error),
    }
}

/// Starts a login: the full interactive path, whatever the cache holds.
///
/// A fresh verifier and a fresh state are drawn; the first action shows the
/// authorization URL that belongs to them.
pub fn authenticate(config: &AuthorizationConfig) -> (r: (Flow, Action))
    requires
        config@.fits(),
    ensures
        login_started(config@, r.0@, r.1@),
{
    let verifier = generate_verifier();
    let state = state_token();
    proof {
        lemma_base64url_byte_len(state@);
    }
    login_with(config, verifier, state)
}

/// Starts the operation that yields an access token.
///
/// A cached record is refreshed, whatever its age, and never leads to the
/// interactive path. Without a cache the operation is a login. A cache that
/// cannot be read fails the operation.
pub fn get_token(config: &AuthorizationConfig, cache: CacheLookup) -> (r: (Flow, Action))
    requires
        config@.fits(),
    ensures
        match cache@ {
            CacheLookupView::Found { token } => (r.0@, r.1@) == begin_refresh(config@, token),
            CacheLookupView::Malformed { complaint } => (r.0@, r.1@) == failed(
                ErrorView::Cache(complaint),
            ),
            CacheLookupView::Absent => login_started(config@, r.0@, r.1@),
        },
{
    match cache {
        CacheLookup::Found { token } => {
            let request = refresh(config, &token);
            (
                Flow::Refreshing { stage: Stage::Requested },
                Action::PostForm { endpoint: request.endpoint, form: request.form },
            )
        },
        CacheLookup::Malformed { complaint } => fail(Error::Cache(complaint)),
        CacheLookup::Absent => authenticate(config),
    }
}

/// The kinds of action that change something outside the process.
pub enum Effect {
    /// Showing the authorization URL to the user.
    Prompt,
    /// Listening for the redirect.
    Listen,
    /// A request to the token endpoint.
    TokenRequest,
    /// A write to the token cache.
    Write,
}

impl ActionView {
    /// Whether the action has the given effect.
    pub open spec fn has(self, effect: Effect) -> bool {
        match effect {
            Effect::Prompt => self is PresentUrl,
            Effect::Listen => self is AwaitRedirect,
            Effect::TokenRequest => self is PostForm,
            Effect::Write => self is Store,
        }
    }
}

impl FlowView {
    /// Number of actions with the given effect that the operation asks for
    /// while the events are reported one after the other.
    pub open spec fn tally(
        self,
        config: AuthorizationConfigView,
        events: Seq<EventView>,
        effect: Effect,
    ) -> nat
        decreases events.len(),
    {
        if events.len() == 0 {
            0
        } else {
            let (next, action) = self.step(config, events.first());
            (if action.has(effect) {
                1nat
            } else {
                0nat
            }) + next.tally(config, events.drop_first(), effect)
        }
    }

    /// The record of the first write to the cache that the operation asks
    /// for while the events are reported, if it asks for any.
    pub open spec fn written(self, config: AuthorizationConfigView, events: Seq<EventView>) -> Option<
        AccessTokenView,
    >
        decreases events.len(),
    {
        if events.len() == 0 {
            None
        } else {
            let (next, action) = self.step(config, events.first());
            match action {
                ActionView::Store { token } => Some(token),
                _ => next.written(config, events.drop_first()),
            }
        }
    }

    /// Number of actions with the given effect that a successful operation
    /// still has before it, seen from this state.
    pub open spec fn ahead(self, effect: Effect) -> nat {
        match (self, effect) {
            (FlowView::AwaitingUserAuthorization { .. }, Effect::Prompt) => 0,
            (FlowView::AwaitingUserAuthorization { .. }, _) => 1,
            (FlowView::AwaitingRedirect { .. }, Effect::TokenRequest) => 1,
            (FlowView::AwaitingRedirect { .. }, Effect::Write) => 1,
            (FlowView::Exchanging { stage }, Effect::Write) => if stage is Requested || stage is Granted {
                1
            } else {
                0
            },
            (FlowView::Refreshing { stage }, Effect::Write) => if stage is Requested || stage is Granted {
                1
            } else {
                0
            },
            _ => 0,
        }
    }

    /// The operation can no longer succeed: it has failed, or the token
    /// endpoint has refused.
    pub open spec fn is_lost(self) -> bool {
        match self {
            FlowView::Failed { .. } => true,
            FlowView::Exchanging { stage: StageView::Refused } => true,
            FlowView::Refreshing { stage: StageView::Refused } => true,
            _ => false,
        }
    }

    /// The record that this state is about to leave in the cache, where that
    /// is settled already.
    pub open spec fn writing(self) -> Option<AccessTokenView> {
        match self {
            FlowView::Exchanging { stage: StageView::Storing { token } } => Some(token),
            FlowView::Refreshing { stage: StageView::Storing { token } } => Some(token),
            FlowView::Authenticated { token } => Some(token),
            _ => None,
        }
    }
}

/// From any state and whatever is reported: no effect occurs more often than
/// a successful operation has it before it, and an operation that succeeds
/// has each exactly that often. The record that a successful operation ends
/// with is the one it wrote. After a failure or a refusal there is no
/// success.
pub proof fn lemma_course(
    state: FlowView,
    config: AuthorizationConfigView,
    events: Seq<EventView>,
    effect: Effect,
)
    ensures
        state.tally(config, events, effect) <= state.ahead(effect),
        state.is_lost() ==> !(state.run(config, events) is Authenticated),
        state.run(config, events) is Authenticated ==> state.tally(config, events, effect)
            == state.ahead(effect),
        state.run(config, events) matches FlowView::Authenticated { token } ==> (match state.writing() {
            Some(record) => record == token && state.written(config, events) is None,
            None => state.written(config, events) == Some(token),
        }),
    decreases events.len(),
{
    if events.len() > 0 {
        let (next, action) = state.step(config, events.first());
        lemma_course(next, config, events.drop_first(), effect);
    }
}

/// A cached record leads to exactly one request to the token endpoint, the
/// refresh that starts the operation, and never to the interactive path. At
/// most one record is written, and exactly one where the operation succeeds:
/// the record it ends with.
pub proof fn lemma_cached_record_is_refreshed_once(
    config: AuthorizationConfigView,
    token: AccessTokenView,
    events: Seq<EventView>,
)
    ensures
        begin_refresh(config, token).1 == (ActionView::PostForm {
            endpoint: config.token_endpoint,
            form: refresh_form(config, token),
        }),
        begin_refresh(config, token).0.tally(config, events, Effect::TokenRequest) == 0,
        begin_refresh(config, token).0.tally(config, events, Effect::Prompt) == 0,
        begin_refresh(config, token).0.tally(config, events, Effect::Listen) == 0,
        begin_refresh(config, token).0.tally(config, events, Effect::Write) <= 1,
        begin_refresh(config, token).0.run(config, events) matches FlowView::Authenticated {
            token: refreshed,
        } ==> begin_refresh(config, token).0.tally(config, events, Effect::Write) == 1
            && begin_refresh(config, token).0.written(config, events) == Some(refreshed),
{
    let start = begin_refresh(config, token).0;
    lemma_course(start, config, events, Effect::TokenRequest);
    lemma_course(start, config, events, Effect::Prompt);
    lemma_course(start, config, events, Effect::Listen);
    lemma_course(start, config, events, Effect::Write);
}

/// Without a cache the interactive path is taken once: the operation starts
/// by showing the URL, unless the configured endpoint is no URL, and never
/// shows another; it listens at most once, makes at most one request to the
/// token endpoint and writes at most one record. Where it succeeds it does
/// each exactly once, and the record it ends with is the one it wrote.
pub proof fn lemma_login_runs_once(
    config: AuthorizationConfigView,
    verifier: Seq<char>,
    state: Seq<char>,
    events: Seq<EventView>,
)
    ensures
        authorization_url_of(config, challenge_of(verifier), state) is Ok ==> begin_login(
            config,
            verifier,
            state,
        ).1 is PresentUrl,
        begin_login(config, verifier, state).0.tally(config, events, Effect::Prompt) == 0,
        begin_login(config, verifier, state).0.tally(config, events, Effect::Listen) <= 1,
        begin_login(config, verifier, state).0.tally(config, events, Effect::TokenRequest) <= 1,
        begin_login(config, verifier, state).0.tally(config, events, Effect::Write) <= 1,
        begin_login(config, verifier, state).0.run(config, events) matches FlowView::Authenticated {
            token,
        } ==> {
            &&& begin_login(config, verifier, state).1 is PresentUrl
            &&& begin_login(config, verifier, state).0.tally(config, events, Effect::Listen) == 1
            &&& begin_login(config, verifier, state).0.tally(config, events, Effect::TokenRequest)
                == 1
            &&& begin_login(config, verifier, state).0.tally(config, events, Effect::Write) == 1
            &&& begin_login(config, verifier, state).0.written(config, events) == Some(token)
        },
{
    let start = begin_login(config, verifier, state).0;
    lemma_course(start, config, events, Effect::Prompt);
    lemma_course(start, config, events, Effect::Listen);
    lemma_course(start, config, events, Effect::TokenRequest);
    lemma_course(start, config, events, Effect::Write);
}

/// The verifier that is sent with the authorization code is the one whose
/// challenge went into the authorization URL of the same attempt, and the
/// listener is told to expect the state that went into that URL.
pub proof fn lemma_attempt_keeps_its_verifier(
    config: AuthorizationConfigView,
    verifier: Seq<char>,
    state: Seq<char>,
    code: Seq<char>,
)
    requires
        authorization_url_of(config, challenge_of(verifier), state) is Ok,
        listen_address_of(config.redirect_uri) is Ok,
    ensures
        ({
            let shown = begin_login(config, verifier, state);
            let listening = shown.0.step(config, EventView::UrlPresented);
            let redeeming = listening.0.step(config, (EventView::Code { code }));
            &&& shown.1 == (ActionView::PresentUrl {
                url: authorization_url_of(config, challenge_of(verifier), state)->Ok_0,
            })
            &&& listening.1 matches ActionView::AwaitRedirect { expected_state, .. }
                && expected_state == state
            &&& redeeming.1 == (ActionView::PostForm {
                endpoint: config.token_endpoint,
                form: exchange_form(config, verifier, code),
            })
        }),
{
}

/// A login whose redirect fails, be it for a state that does not match or
/// for a connection that closed, writes nothing to the cache: neither before
/// the failure nor after it, whatever is reported then.
pub proof fn lemma_failed_redirect_writes_nothing(
    config: AuthorizationConfigView,
    verifier: Seq<char>,
    state: Seq<char>,
    error: ErrorView,
    later: Seq<EventView>,
)
    ensures
        begin_login(config, verifier, state).0.tally(
            config,
            seq![EventView::UrlPresented, EventView::Failed { error }] + later,
            Effect::Write,
        ) == 0,
        !(begin_login(config, verifier, state).0.run(
            config,
            seq![EventView::UrlPresented, EventView::Failed { error }] + later,
        ) is Authenticated),
{
    let events = seq![EventView::UrlPresented, EventView::Failed { error }] + later;
    let start = begin_login(config, verifier, state).0;
    let (second, _) = start.step(config, events.first());
    let rest = events.drop_first();
    assert(rest =~= seq![EventView::Failed { error }] + later);
    let (third, _) = second.step(config, rest.first());
    assert(rest.drop_first() =~= later);
    assert(third.is_lost());
    lemma_course(third, config, later, Effect::Write);
    assert(second.tally(config, rest, Effect::Write) == third.tally(config, later, Effect::Write));
    assert(start.tally(config, events, Effect::Write) == second.tally(config, rest, Effect::Write));
    assert(second.run(config, rest) == third.run(config, later));
    assert(start.run(config, events) == second.run(config, rest));
}

/// A finished operation stays finished: whatever is reported afterwards, its
/// state does not change.
pub proof fn lemma_final_state_stays(
    state: FlowView,
    config: AuthorizationConfigView,
    events: Seq<EventView>,
)
    requires
        state.is_final(),
    ensures
        state.run(config, events) == state,
    decreases events.len(),
{
    if events.len() > 0 {
        lemma_final_state_stays(state, config, events.drop_first());
    }
}

/// A failure that is reported while the operation runs ends it with that
/// failure.
pub proof fn lemma_reported_failure_ends(
    state: FlowView,
    config: AuthorizationConfigView,
    error: ErrorView,
)
    requires
        !state.is_final(),
    ensures
        state.step(config, (EventView::Failed { error })) == failed(error),
{
}

} // verus!
