//! The edge service: asks the data service, then the time service, and
//! merges the two answers into one response.
//!
//! The service itself neither sends nor receives. `handler` and
//! `Handler::step` decide what is to be done next; the caller does it and
//! reports what came of it.

use vstd::prelude::*;
use vstd::string::*;
use chrono::NaiveDateTime;
use crate::query::{Prefix, extract_param, effective_param};
use crate::service_a::{Model, ModelView};
use crate::service_c::ServiceCModel;
use crate::upstream::{
    FetchError, STATUS_OK, body_outcome, check_body, check_status, failure_status, head_outcome,
    request_url, status_for, url_text,
};

verus! {

/// The edge service's answer: the data service's two fields and the time
/// service's timestamp.
#[derive(Debug, PartialEq, Eq)]
pub struct ExternalModel {
    pub key_one: String,
    pub key_two: String,
    pub key_time: NaiveDateTime,
}

/// What an `ExternalModel` holds, as text and time.
pub struct ExternalModelView {
    pub key_one: Seq<char>,
    pub key_two: Seq<char>,
    pub key_time: NaiveDateTime,
}

impl View for ExternalModel {
    type V = ExternalModelView;

    open spec fn view(&self) -> ExternalModelView {
        ExternalModelView {
            key_one: self.key_one@,
            key_two: self.key_two@,
            key_time: self.key_time,
        }
    }
}

/// The merged answer: each field comes from one dependency, unchanged.
pub open spec fn merged(data: ModelView, time: ServiceCModel) -> ExternalModelView {
    ExternalModelView { key_one: data.key_one, key_two: data.key_two, key_time: time.key_time }
}

/// Merges the two payloads. `key_one` and `key_two` are the data
/// service's, `key_time` is the time service's; nothing is transformed.
pub fn merge(data: Model, time: ServiceCModel) -> (out: ExternalModel)
    ensures
        out@ == merged(data@, time),
        out@.key_one == data@.key_one,
        out@.key_two == data@.key_two,
        out@.key_time == time.key_time,
{
    ExternalModel { key_one: data.key_one, key_two: data.key_two, key_time: time.key_time }
}

/// Where the dependencies are found: one base URL for each.
#[derive(Debug, Clone, PartialEq, Eq)]
pub struct Config {
    pub service_a_url: String,
    pub service_c_url: String,
}

/// What a `Config` holds, as text.
pub struct ConfigView {
    pub service_a_url: Seq<char>,
    pub service_c_url: Seq<char>,
}

impl View for Config {
    type V = ConfigView;

    open spec fn view(&self) -> ConfigView {
        ConfigView { service_a_url: self.service_a_url@, service_c_url: self.service_c_url@ }
    }
}

/// The answer to an inbound request: a status, and a body where the
/// status is 200.
#[derive(Debug, PartialEq, Eq)]
pub struct Response {
    pub status: u16,
    pub body: Option<ExternalModel>,
}

/// What a `Response` holds.
pub struct ResponseView {
    pub status: u16,
    pub body: Option<ExternalModelView>,
}

impl View for Response {
    type V = ResponseView;

    open spec fn view(&self) -> ResponseView {
        ResponseView {
            status: self.status,
            body: match self.body {
                Some(model) => Some(model@),
                None => None,
            },
        }
    }
}

/// The response that carries a merged body.
pub open spec fn success(body: ExternalModelView) -> ResponseView {
    ResponseView { status: STATUS_OK, body: Some(body) }
}

/// The response that reports a failed fetch: its status, and no body.
pub open spec fn failure(error: FetchError) -> ResponseView {
    ResponseView { status: failure_status(error), body: None }
}

/// The two dependencies of the edge service.
#[derive(Debug, Clone, Copy, PartialEq, Eq)]
pub enum Dependency {
    /// The data service.
    Data,
    /// The time service.
    Time,
}

/// What is awaited of the exchange that is under way.
#[derive(Debug, Clone, Copy, PartialEq, Eq)]
pub enum Stage {
    /// The GET was asked for; its status line is awaited.
    Head,
    /// The status was 2xx; the decoded body is awaited.
    Body,
}

/// Where the handling of one inbound request stands.
#[derive(Debug, Clone, PartialEq, Eq)]
pub enum State {
    /// The data service was asked.
    AwaitingDataResult(Stage),
    /// The data service has answered with the payload held here, and the
    /// time service was asked.
    AwaitingTimeResult(Stage, Model),
    /// Both dependencies have answered and the merged response was given.
    Complete,
    /// The data service failed and the failure was reported.
    DataFailed,
    /// The time service failed and the failure was reported.
    TimeFailed,
}

/// What a `State` holds.
pub enum StateView {
    AwaitingDataResult(Stage),
    AwaitingTimeResult(Stage, ModelView),
    Complete,
    DataFailed,
    TimeFailed,
}

impl View for State {
    type V = StateView;

    open spec fn view(&self) -> StateView {
        match self {
            State::AwaitingDataResult(stage) => StateView::AwaitingDataResult(*stage),
            State::AwaitingTimeResult(stage, data) => StateView::AwaitingTimeResult(*stage, data@),
            State::Complete => StateView::Complete,
            State::DataFailed => StateView::DataFailed,
            State::TimeFailed => StateView::TimeFailed,
        }
    }
}

/// What the caller reports of the work it was asked to do.
#[derive(Debug, Clone, PartialEq, Eq)]
pub enum Event {
    /// The GET failed in the transport: no response came back.
    Unreachable,
    /// The GET was answered with this status.
    Status(u16),
    /// The body of the data service's response, decoded; `None` where it
    /// could not be read as a `Model`.
    Data(Option<Model>),
    /// The body of the time service's response, decoded; `None` where it
    /// could not be read as a `ServiceCModel`.
    Time(Option<ServiceCModel>),
}

/// What an `Event` holds.
pub enum EventView {
    Unreachable,
    Status(u16),
    Data(Option<ModelView>),
    Time(Option<ServiceCModel>),
}

impl View for Event {
    type V = EventView;

    open spec fn view(&self) -> EventView {
        match self {
            Event::Unreachable => EventView::Unreachable,
            Event::Status(code) => EventView::Status(*code),
            Event::Data(body) => EventView::Data(
                match body {
                    Some(model) => Some(model@),
                    None => None,
                },
            ),
            Event::Time(body) => EventView::Time(*body),
        }
    }
}

/// What the caller is asked to do next.
#[derive(Debug, PartialEq, Eq)]
pub enum Action {
    /// Send one GET to `url` and report `Event::Status` or
    /// `Event::Unreachable`.
    Get { dependency: Dependency, url: String },
    /// Read the body of the response just received, decode it as the
    /// payload of the dependency, and report `Event::Data` or `Event::Time`.
    ReadBody(Dependency),
    /// Answer the inbound request. Nothing follows.
    Respond(Response),
    /// Nothing: the event was not awaited.
    Nothing,
}

/// What an `Action` holds.
pub enum ActionView {
    Get { dependency: Dependency, url: Seq<char> },
    ReadBody(Dependency),
    Respond(ResponseView),
    Nothing,
}

impl View for Action {
    type V = ActionView;

    open spec fn view(&self) -> ActionView {
        match self {
            Action::Get { dependency, url } => ActionView::Get {
                dependency: *dependency,
                url: url@,
            },
            Action::ReadBody(dependency) => ActionView::ReadBody(*dependency),
            Action::Respond(response) => ActionView::Respond(response@),
            Action::Nothing => ActionView::Nothing,
        }
    }
}

/// The handling of one inbound request: the configuration it was started
/// with and the state it has reached.
#[derive(Debug, Clone, PartialEq, Eq)]
pub struct Handler {
    pub config: Config,
    pub state: State,
}

/// What a `Handler` holds.
pub struct HandlerView {
    pub config: ConfigView,
    pub state: StateView,
}

impl View for Handler {
    type V = HandlerView;

    open spec fn view(&self) -> HandlerView {
        HandlerView { config: self.config@, state: self.state@ }
    }
}

/// The URL that asks the data service: its base URL, the path `/route`,
/// and the effective parameter of the inbound request under the name `p`.
pub open spec fn data_url(config: ConfigView, query: Option<Seq<char>>) -> Seq<char> {
    url_text(config.service_a_url, "/route"@, seq![("p"@, effective_param(query))])
}

/// The URL that asks the time service: its base URL and the path `/time`,
/// with no parameters.
pub open spec fn time_url(config: ConfigView) -> Seq<char> {
    url_text(config.service_c_url, "/time"@, Seq::empty())
}

/// How the handling of a request begins: the data service is asked.
pub open spec fn begin(config: ConfigView, query: Option<Seq<char>>) -> (HandlerView, ActionView) {
    (
        HandlerView { config, state: StateView::AwaitingDataResult(Stage::Head) },
        ActionView::Get { dependency: Dependency::Data, url: data_url(config, query) },
    )
}

/// A failure of a dependency ends the handling: the failure's status is
/// given as the response, and the state records which dependency failed.
pub open spec fn fail(config: ConfigView, dependency: Dependency, error: FetchError) -> (
    HandlerView,
    ActionView,
) {
    (
        HandlerView {
            config,
            state: match dependency {
                Dependency::Data => StateView::DataFailed,
                Dependency::Time => StateView::TimeFailed,
            },
        },
        ActionView::Respond(failure(error)),
    )
}

/// The state and the action that follow a state and an event.
///
/// While a status line is awaited, a transport failure or a non-2xx status
/// fails the dependency, and a 2xx status asks for the body. While a body
/// is awaited, an unusable body fails the dependency; the data service's
/// payload is kept and the time service asked, and the time service's
/// payload completes the handling with the merged response. An event that
/// the state does not await changes nothing and asks for nothing.
pub open spec fn next(handler: HandlerView, event: EventView) -> (HandlerView, ActionView) {
    let config = handler.config;
    match (handler.state, event) {
        (StateView::AwaitingDataResult(Stage::Head), EventView::Unreachable) => fail(
            config,
            Dependency::Data,
            FetchError::Unreachable,
        ),
        (StateView::AwaitingDataResult(Stage::Head), EventView::Status(code)) => match head_outcome(
            Some(code),
        ) {
            Ok(_) => (
                HandlerView { config, state: StateView::AwaitingDataResult(Stage::Body) },
                ActionView::ReadBody(Dependency::Data),
            ),
            Err(error) => fail(config, Dependency::Data, error),
        },
        (StateView::AwaitingDataResult(Stage::Body), EventView::Data(body)) => match body_outcome(
            body,
        ) {
            Ok(data) => (
                HandlerView { config, state: StateView::AwaitingTimeResult(Stage::Head, data) },
                ActionView::Get { dependency: Dependency::Time, url: time_url(config) },
            ),
            Err(error) => fail(config, Dependency::Data, error),
        },
        (StateView::AwaitingTimeResult(Stage::Head, _), EventView::Unreachable) => fail(
            config,
            Dependency::Time,
            FetchError::Unreachable,
        ),
        (StateView::AwaitingTimeResult(Stage::Head, data), EventView::Status(code)) => match head_outcome(
            Some(code),
        ) {
            Ok(_) => (
                HandlerView { config, state: StateView::AwaitingTimeResult(Stage::Body, data) },
                ActionView::ReadBody(Dependency::Time),
            ),
            Err(error) => fail(config, Dependency::Time, error),
        },
        (StateView::AwaitingTimeResult(Stage::Body, data), EventView::Time(body)) => match body_outcome(
            body,
        ) {
            Ok(time) => (
                HandlerView { config, state: StateView::Complete },
                ActionView::Respond(success(merged(data, time))),
            ),
            Err(error) => fail(config, Dependency::Time, error),
        },
        _ => (handler, ActionView::Nothing),
    }
}

/// The request that asks the data service on behalf of an inbound request.
pub fn get_service_a(config: &Config, query: &Prefix) -> (action: Action)
    ensures
        action@ == (ActionView::Get {
            dependency: Dependency::Data,
            url: data_url(config@, query@),
        }),
{
    let param = extract_param(query);
    let mut params: Vec<(String, String)> = Vec::new();
    params.push((String::from_str("p"), param));
    assert(params.deep_view() =~= seq![("p"@, effective_param(query@))]);
    let url = request_url(config.service_a_url.as_str(), "/route", &params);
    Action::Get { dependency: Dependency::Data, url }
}

/// The request that asks the time service.
pub fn get_service_c(config: &Config) -> (action: Action)
    ensures
        action@ == (ActionView::Get { dependency: Dependency::Time, url: time_url(config@) }),
{
    let params: Vec<(String, String)> = Vec::new();
    assert(params.deep_view() =~= Seq::empty());
    let url = request_url(config.service_c_url.as_str(), "/time", &params);
    Action::Get { dependency: Dependency::Time, url }
}

/// Begins the handling of an inbound request: derives the parameter and
/// asks the data service. No other dependency is asked yet.
pub fn handler(config: Config, query: &Prefix) -> (out: (Handler, Action))
    ensures
        (out.0@, out.1@) == begin(config@, query@),
{
    let action = get_service_a(&config, query);
    (Handler { config, state: State::AwaitingDataResult(Stage::Head) }, action)
}

fn failed(config: Config, dependency: Dependency, error: FetchError) -> (out: (Handler, Action))
    ensures
        (out.0@, out.1@) == fail(config@, dependency, error),
{
    let state = match dependency {
        Dependency::Data => State::DataFailed,
        Dependency::Time => State::TimeFailed,
    };
    let response = Response { status: status_for(error), body: None };
    (Handler { config, state }, Action::Respond(response))
}

impl Handler {
    /// Takes the handling one step on: from the state reached and the
    /// event reported to the next state and the next thing to do.
    pub fn step(self, event: Event) -> (out: (Handler, Action))
        ensures
            (out.0@, out.1@) == next(self@, event@),
    {
        let Handler { config, state } = self;
        match (state, event) {
            (State::AwaitingDataResult(Stage::Head), Event::Unreachable) => {
                failed(config, Dependency::Data, FetchError::Unreachable)
            },
            (State::AwaitingDataResult(Stage::Head), Event::Status(code)) => {
                match check_status(Some(code)) {
                    Ok(_) => (
                        Handler { config, state: State::AwaitingDataResult(Stage::Body) },
                        Action::ReadBody(Dependency::Data),
                    ),
                    Err(error) => failed(config, Dependency::Data, error),
                }
            },
            (State::AwaitingDataResult(Stage::Body), Event::Data(body)) => {
                match check_body(body) {
                    Ok(data) => {
                        let action = get_service_c(&config);
                        (
                            Handler {
                                config,
                                state: State::AwaitingTimeResult(Stage::Head, data),
                            },
                            action,
                        )
                    },
                    Err(error) => failed(config, Dependency::Data, error),
                }
            },
            (State::AwaitingTimeResult(Stage::Head, _), Event::Unreachable) => {
                failed(config, Dependency::Time, FetchError::Unreachable)
            },
            (State::AwaitingTimeResult(Stage::Head, data), Event::Status(code)) => {
                match check_status(Some(code)) {
                    Ok(_) => (
                        Handler { config, state: State::AwaitingTimeResult(Stage::Body, data) },
                        Action::ReadBody(Dependency::Time),
                    ),
                    Err(error) => failed(config, Dependency::Time, error),
                }
            },
            (State::AwaitingTimeResult(Stage::Body, data), Event::Time(body)) => {
                match check_body(body) {
                    Ok(time) => {
                        let response = Response { status: STATUS_OK, body: Some(merge(data, time)) };
                        (Handler { config, state: State::Complete }, Action::Respond(response))
                    },
                    Err(error) => failed(config, Dependency::Time, error),
                }
            },
            (state, _) => (Handler { config, state }, Action::Nothing),
        }
    }
}

} // verus!
