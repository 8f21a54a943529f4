use chrono::NaiveDateTime;
use service_chain::query::Prefix;
use service_chain::service_a::Model;
use service_chain::service_b::{
    get_service_a, get_service_c, handler, merge, Action, Config, Dependency, Event,
    ExternalModel, Handler, Response, Stage, State,
};
use service_chain::service_c::ServiceCModel;

/// What a dependency answers in a test: a status, or none where it cannot
/// be reached, and the decoded body, or none where it cannot be decoded.
struct Mock<P> {
    status: Option<u16>,
    body: Option<P>,
}

/// How a request went: the response, and how often each dependency was asked.
struct Outcome {
    response: Response,
    state: State,
    data_calls: usize,
    time_calls: usize,
    urls: Vec<String>,
}

fn config() -> Config {
    Config {
        service_a_url: "http://data:8080".to_string(),
        service_c_url: "http://time:9090".to_string(),
    }
}

fn at(secs: i64, nanos: u32) -> NaiveDateTime {
    chrono::DateTime::from_timestamp(secs, nanos).unwrap().naive_utc()
}

fn data(one: &str, two: &str) -> Model {
    Model { key_one: one.to_string(), key_two: two.to_string() }
}

fn query(value: Option<&str>) -> Prefix {
    Prefix { p: value.map(|text| text.to_string()) }
}

fn head(status: Option<u16>) -> Event {
    match status {
        Some(code) => Event::Status(code),
        None => Event::Unreachable,
    }
}

fn drive(query: &Prefix, data: Mock<Model>, time: Mock<ServiceCModel>) -> Outcome {
    let (mut machine, mut action) = handler(config(), query);
    let mut data_calls = 0;
    let mut time_calls = 0;
    let mut urls = Vec::new();
    for _ in 0..16 {
        let event = match action {
            Action::Get { dependency: Dependency::Data, url } => {
                data_calls += 1;
                urls.push(url);
                head(data.status)
            }
            Action::Get { dependency: Dependency::Time, url } => {
                time_calls += 1;
                urls.push(url);
                head(time.status)
            }
            Action::ReadBody(Dependency::Data) => Event::Data(data.body.clone()),
            Action::ReadBody(Dependency::Time) => Event::Time(time.body),
            Action::Respond(response) => {
                return Outcome { response, state: machine.state, data_calls, time_calls, urls };
            }
            Action::Nothing => panic!("the handler asked for nothing before it responded"),
        };
        (machine, action) = machine.step(event);
    }
    panic!("the handler did not respond")
}

fn good_data() -> Mock<Model> {
    Mock { status: Some(200), body: Some(data("(x)Field 1", "(x)Field 2")) }
}

fn good_time() -> Mock<ServiceCModel> {
    Mock { status: Some(200), body: Some(ServiceCModel { key_time: at(1_700_000_000, 5) }) }
}

#[test]
fn merge_takes_each_field_from_its_dependency() {
    let merged = merge(data("one", "two"), ServiceCModel { key_time: at(10, 20) });
    assert_eq!(
        merged,
        ExternalModel {
            key_one: "one".to_string(),
            key_two: "two".to_string(),
            key_time: at(10, 20),
        }
    );
}

#[test]
fn merge_does_not_swap_or_trim_fields() {
    let merged = merge(data(" two ", ""), ServiceCModel { key_time: at(0, 0) });
    assert_eq!(merged.key_one, " two ");
    assert_eq!(merged.key_two, "");
    assert_eq!(merged.key_time, at(0, 0));
}

#[test]
fn the_data_service_is_asked_with_the_parameter() {
    assert_eq!(
        get_service_a(&config(), &query(Some("abc"))),
        Action::Get {
            dependency: Dependency::Data,
            url: "http://data:8080/route?p=abc".to_string(),
        }
    );
}

#[test]
fn the_data_service_is_asked_with_the_default() {
    assert_eq!(
        get_service_a(&config(), &query(None)),
        Action::Get {
            dependency: Dependency::Data,
            url: "http://data:8080/route?p=Unknown".to_string(),
        }
    );
}

#[test]
fn the_data_service_is_asked_with_an_empty_parameter() {
    assert_eq!(
        get_service_a(&config(), &query(Some(""))),
        Action::Get { dependency: Dependency::Data, url: "http://data:8080/route?p=".to_string() }
    );
}

#[test]
fn the_parameter_is_encoded_on_its_way_out() {
    assert_eq!(
        get_service_a(&config(), &query(Some("a b&p=c"))),
        Action::Get {
            dependency: Dependency::Data,
            url: "http://data:8080/route?p=a%20b%26p%3Dc".to_string(),
        }
    );
}

#[test]
fn the_time_service_is_asked_without_parameters() {
    assert_eq!(
        get_service_c(&config()),
        Action::Get { dependency: Dependency::Time, url: "http://time:9090/time".to_string() }
    );
}

#[test]
fn handling_begins_with_the_data_service() {
    let (machine, action) = handler(config(), &query(Some("x")));
    assert_eq!(
        machine,
        Handler { config: config(), state: State::AwaitingDataResult(Stage::Head) }
    );
    assert_eq!(
        action,
        Action::Get { dependency: Dependency::Data, url: "http://data:8080/route?p=x".to_string() }
    );
}

#[test]
fn two_good_dependencies_give_200_and_the_merged_fields() {
    let outcome = drive(&query(Some("x")), good_data(), good_time());
    assert_eq!(outcome.response.status, 200);
    assert_eq!(
        outcome.response.body,
        Some(ExternalModel {
            key_one: "(x)Field 1".to_string(),
            key_two: "(x)Field 2".to_string(),
            key_time: at(1_700_000_000, 5),
        })
    );
    assert_eq!(outcome.state, State::Complete);
    assert_eq!(outcome.data_calls, 1);
    assert_eq!(outcome.time_calls, 1);
    assert_eq!(
        outcome.urls,
        vec!["http://data:8080/route?p=x".to_string(), "http://time:9090/time".to_string()]
    );
}

#[test]
fn any_2xx_status_counts_as_an_answer() {
    let data = Mock { status: Some(204), ..good_data() };
    let time = Mock { status: Some(299), ..good_time() };
    let outcome = drive(&query(None), data, time);
    assert_eq!(outcome.response.status, 200);
    assert!(outcome.response.body.is_some());
}

#[test]
fn a_good_run_goes_step_by_step() {
    let (machine, _) = handler(config(), &query(None));
    let (machine, action) = machine.step(Event::Status(200));
    assert_eq!(machine.state, State::AwaitingDataResult(Stage::Body));
    assert_eq!(action, Action::ReadBody(Dependency::Data));
    let (machine, action) = machine.step(Event::Data(Some(data("a", "b"))));
    assert_eq!(machine.state, State::AwaitingTimeResult(Stage::Head, data("a", "b")));
    assert_eq!(
        action,
        Action::Get { dependency: Dependency::Time, url: "http://time:9090/time".to_string() }
    );
    let (machine, action) = machine.step(Event::Status(200));
    assert_eq!(machine.state, State::AwaitingTimeResult(Stage::Body, data("a", "b")));
    assert_eq!(action, Action::ReadBody(Dependency::Time));
    let (machine, action) = machine.step(Event::Time(Some(ServiceCModel { key_time: at(1, 2) })));
    assert_eq!(machine.state, State::Complete);
    assert_eq!(
        action,
        Action::Respond(Response {
            status: 200,
            body: Some(ExternalModel {
                key_one: "a".to_string(),
                key_two: "b".to_string(),
                key_time: at(1, 2),
            }),
        })
    );
    assert_eq!(machine.config, config());
}

#[test]
fn an_unreachable_data_service_is_a_transport_error_and_time_is_never_asked() {
    let data = Mock { status: None, ..good_data() };
    let outcome = drive(&query(Some("x")), data, good_time());
    assert_eq!(outcome.response, Response { status: 502, body: None });
    assert_eq!(outcome.state, State::DataFailed);
    assert_eq!(outcome.data_calls, 1);
    assert_eq!(outcome.time_calls, 0);
}

#[test]
fn a_rejecting_data_service_is_a_bad_upstream_and_time_is_never_asked() {
    for status in [199, 300, 404, 500, 503] {
        let data = Mock { status: Some(status), ..good_data() };
        let outcome = drive(&query(Some("x")), data, good_time());
        assert_eq!(outcome.response, Response { status: 400, body: None });
        assert_eq!(outcome.state, State::DataFailed);
        assert_eq!(outcome.time_calls, 0);
    }
}

#[test]
fn a_data_body_that_lacks_a_field_is_a_bad_upstream() {
    let data = Mock { status: Some(200), body: None };
    let outcome = drive(&query(Some("x")), data, good_time());
    assert_eq!(outcome.response, Response { status: 400, body: None });
    assert_eq!(outcome.state, State::DataFailed);
    assert_eq!(outcome.time_calls, 0);
}

#[test]
fn a_time_service_that_answers_500_gives_400_and_no_merge() {
    let time = Mock { status: Some(500), ..good_time() };
    let outcome = drive(&query(Some("x")), good_data(), time);
    assert_eq!(outcome.response, Response { status: 400, body: None });
    assert_eq!(outcome.state, State::TimeFailed);
    assert_eq!(outcome.data_calls, 1);
    assert_eq!(outcome.time_calls, 1);
}

#[test]
fn an_unreachable_time_service_is_a_transport_error() {
    let time = Mock { status: None, ..good_time() };
    let outcome = drive(&query(Some("x")), good_data(), time);
    assert_eq!(outcome.response, Response { status: 502, body: None });
    assert_eq!(outcome.state, State::TimeFailed);
}

#[test]
fn a_time_body_that_lacks_its_field_is_a_bad_upstream() {
    let time = Mock { status: Some(200), body: None };
    let outcome = drive(&query(Some("x")), good_data(), time);
    assert_eq!(outcome.response, Response { status: 400, body: None });
    assert_eq!(outcome.state, State::TimeFailed);
}

#[test]
fn the_body_is_not_looked_at_under_a_failing_status() {
    let data = Mock { status: Some(404), body: Some(data("would", "do")) };
    let outcome = drive(&query(None), data, good_time());
    assert_eq!(outcome.response, Response { status: 400, body: None });
}

#[test]
fn after_a_failure_nothing_more_is_asked() {
    let (machine, _) = handler(config(), &query(None));
    let (machine, action) = machine.step(Event::Unreachable);
    assert_eq!(action, Action::Respond(Response { status: 502, body: None }));
    let later = vec![
        Event::Status(200),
        Event::Data(Some(data("a", "b"))),
        Event::Status(200),
        Event::Time(Some(ServiceCModel { key_time: at(3, 4) })),
        Event::Unreachable,
    ];
    let mut machine = machine;
    for event in later {
        let (next, action) = machine.step(event);
        assert_eq!(action, Action::Nothing);
        assert_eq!(next.state, State::DataFailed);
        machine = next;
    }
}

#[test]
fn after_the_response_nothing_more_is_asked() {
    let machine = Handler { config: config(), state: State::Complete };
    let (machine, action) = machine.step(Event::Status(200));
    assert_eq!(action, Action::Nothing);
    let (machine, action) = machine.step(Event::Time(Some(ServiceCModel { key_time: at(3, 4) })));
    assert_eq!(action, Action::Nothing);
    assert_eq!(machine, Handler { config: config(), state: State::Complete });
}

#[test]
fn an_event_that_is_not_awaited_changes_nothing() {
    let start = Handler { config: config(), state: State::AwaitingDataResult(Stage::Head) };
    let (machine, action) = start.clone().step(Event::Data(Some(data("a", "b"))));
    assert_eq!(action, Action::Nothing);
    assert_eq!(machine, start);
    let (machine, action) = start.clone().step(Event::Time(None));
    assert_eq!(action, Action::Nothing);
    assert_eq!(machine, start);

    let reading = Handler { config: config(), state: State::AwaitingDataResult(Stage::Body) };
    let (machine, action) = reading.clone().step(Event::Status(200));
    assert_eq!(action, Action::Nothing);
    assert_eq!(machine, reading);
    let (machine, action) = reading.clone().step(Event::Time(None));
    assert_eq!(action, Action::Nothing);
    assert_eq!(machine, reading);

    let waiting = Handler {
        config: config(),
        state: State::AwaitingTimeResult(Stage::Body, data("a", "b")),
    };
    let (machine, action) = waiting.clone().step(Event::Data(None));
    assert_eq!(action, Action::Nothing);
    assert_eq!(machine, waiting);
    let (machine, action) = waiting.clone().step(Event::Unreachable);
    assert_eq!(action, Action::Nothing);
    assert_eq!(machine, waiting);
}

#[test]
fn the_same_request_and_answers_give_the_same_response() {
    let first = drive(&query(Some("same")), good_data(), good_time());
    let second = drive(&query(Some("same")), good_data(), good_time());
    assert_eq!(first.response, second.response);
    assert_eq!(first.urls, second.urls);
    assert_eq!(first.state, second.state);
}

#[test]
fn a_later_timestamp_changes_the_time_field_only() {
    let later = Mock { status: Some(200), body: Some(ServiceCModel { key_time: at(1_800_000_000, 9) }) };
    let first = drive(&query(Some("same")), good_data(), good_time());
    let second = drive(&query(Some("same")), good_data(), later);
    assert_eq!(first.response.status, second.response.status);
    let one = first.response.body.unwrap();
    let other = second.response.body.unwrap();
    assert_eq!(one.key_one, other.key_one);
    assert_eq!(one.key_two, other.key_two);
    assert_eq!(one.key_time, at(1_700_000_000, 5));
    assert_eq!(other.key_time, at(1_800_000_000, 9));
}

#[test]
fn failures_repeat_as_well() {
    let bad = || Mock { status: Some(503), body: None::<Model> };
    let first = drive(&query(None), bad(), good_time());
    let second = drive(&query(None), bad(), good_time());
    assert_eq!(first.response, second.response);
    assert_eq!(first.response.status, 400);
}
