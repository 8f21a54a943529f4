//! Runs of the edge service's handler: what a sequence of reported events
//! leads to, and what holds of every such run.

use vstd::prelude::*;
use crate::service_a::ModelView;
use crate::service_b::{
    ActionView, ConfigView, Dependency, EventView, ExternalModelView, HandlerView, ResponseView,
    Stage, StateView, begin, failure, merged, next, success, time_url,
};
use crate::service_c::ServiceCModel;
use crate::upstream::{
    FetchError, STATUS_BAD_UPSTREAM, STATUS_OK, STATUS_TRANSPORT_ERROR, classify, is_success,
};

verus! {

/// Where the handler stands after the events, taken in order.
pub open spec fn state_after(handler: HandlerView, events: Seq<EventView>) -> HandlerView
    decreases events.len(),
{
    if events.len() == 0 {
        handler
    } else {
        next(state_after(handler, events.drop_last()), events.last()).0
    }
}

/// What the handler asks for in answer to each of the events, in order.
pub open spec fn actions_of(handler: HandlerView, events: Seq<EventView>) -> Seq<ActionView>
    decreases events.len(),
{
    if events.len() == 0 {
        Seq::empty()
    } else {
        actions_of(handler, events.drop_last()).push(
            next(state_after(handler, events.drop_last()), events.last()).1,
        )
    }
}

/// Two events that differ at most in the timestamp of a time payload.
pub open spec fn events_agree(one: EventView, other: EventView) -> bool {
    match (one, other) {
        (EventView::Time(Some(_)), EventView::Time(Some(_))) => true,
        _ => one == other,
    }
}

/// Two responses that differ at most in the timestamp of the body.
pub open spec fn responses_agree(one: ResponseView, other: ResponseView) -> bool {
    &&& one.status == other.status
    &&& match (one.body, other.body) {
        (Some(left), Some(right)) => left.key_one == right.key_one && left.key_two
            == right.key_two,
        (None, None) => true,
        _ => false,
    }
}

/// Two actions that differ at most in the timestamp of a response's body.
pub open spec fn actions_agree(one: ActionView, other: ActionView) -> bool {
    match (one, other) {
        (ActionView::Respond(left), ActionView::Respond(right)) => responses_agree(left, right),
        _ => one == other,
    }
}

/// What the caller reports of one exchange with the data service: the
/// transport's failure where no response came; the status alone where it
/// is outside the 2xx range, because the body is then not read; else the
/// status and the decoded body.
pub open spec fn data_exchange(status: Option<u16>, body: Option<ModelView>) -> Seq<EventView> {
    match status {
        None => seq![EventView::Unreachable],
        Some(code) => if is_success(code) {
            seq![EventView::Status(code), EventView::Data(body)]
        } else {
            seq![EventView::Status(code)]
        },
    }
}

/// What the caller reports of one exchange with the time service.
pub open spec fn time_exchange(status: Option<u16>, body: Option<ServiceCModel>) -> Seq<
    EventView,
> {
    match status {
        None => seq![EventView::Unreachable],
        Some(code) => if is_success(code) {
            seq![EventView::Status(code), EventView::Time(body)]
        } else {
            seq![EventView::Status(code)]
        },
    }
}

/// The response to an inbound request, from the outcomes of the two
/// fetches: the first failure, the data service's before the time
/// service's, or else the merged payloads.
pub open spec fn outcome(
    data: Result<ModelView, FetchError>,
    time: Result<ServiceCModel, FetchError>,
) -> ResponseView {
    match data {
        Err(error) => failure(error),
        Ok(payload) => match time {
            Err(error) => failure(error),
            Ok(reading) => success(merged(payload, reading)),
        },
    }
}

/// An exchange with the data service ends as its classification says: a
/// payload is kept and the time service asked; a failure is reported with
/// its status and ends the handling.
pub proof fn lemma_data_exchange(
    config: ConfigView,
    query: Option<Seq<char>>,
    status: Option<u16>,
    body: Option<ModelView>,
)
    ensures
        ({
            let start = begin(config, query).0;
            let events = data_exchange(status, body);
            let end = state_after(start, events);
            let actions = actions_of(start, events);
            &&& actions.len() == events.len()
            &&& end.config == config
            &&& match classify(status, body) {
                Ok(payload) => {
                    &&& end.state == StateView::AwaitingTimeResult(Stage::Head, payload)
                    &&& actions.last() == (ActionView::Get {
                        dependency: Dependency::Time,
                        url: time_url(config),
                    })
                },
                Err(error) => {
                    &&& end.state == StateView::DataFailed
                    &&& actions.last() == ActionView::Respond(failure(error))
                },
            }
            &&& forall|i: int|
                0 <= i < actions.len() - 1 ==> #[trigger] actions[i] == ActionView::ReadBody(
                    Dependency::Data,
                )
        }),
{
    let start = begin(config, query).0;
    match status {
        Some(code) => {
            let first = EventView::Status(code);
            lemma_run_of_one(start, first);
            if is_success(code) {
                let second = EventView::Data(body);
                assert(data_exchange(status, body) =~= seq![first] + seq![second]);
                lemma_run_in_parts(start, seq![first], seq![second]);
                lemma_run_of_one(next(start, first).0, second);
            }
        },
        None => {
            lemma_run_of_one(start, EventView::Unreachable);
        },
    }
}

/// An exchange with the time service, once the data service's payload is
/// held, ends as its classification says: a payload completes the handling
/// with the merged response; a failure is reported with its status.
pub proof fn lemma_time_exchange(
    config: ConfigView,
    data: ModelView,
    status: Option<u16>,
    body: Option<ServiceCModel>,
)
    ensures
        ({
            let start = HandlerView {
                config,
                state: StateView::AwaitingTimeResult(Stage::Head, data),
            };
            let events = time_exchange(status, body);
            let end = state_after(start, events);
            let actions = actions_of(start, events);
            &&& actions.len() == events.len()
            &&& actions.last() == ActionView::Respond(outcome(Ok(data), classify(status, body)))
            &&& end.state == match classify(status, body) {
                Ok(_) => StateView::Complete,
                Err(_) => StateView::TimeFailed,
            }
            &&& forall|i: int|
                0 <= i < actions.len() - 1 ==> #[trigger] actions[i] == ActionView::ReadBody(
                    Dependency::Time,
                )
        }),
{
    let start = HandlerView { config, state: StateView::AwaitingTimeResult(Stage::Head, data) };
    match status {
        Some(code) => {
            let first = EventView::Status(code);
            lemma_run_of_one(start, first);
            if is_success(code) {
                let second = EventView::Time(body);
                assert(time_exchange(status, body) =~= seq![first] + seq![second]);
                lemma_run_in_parts(start, seq![first], seq![second]);
                lemma_run_of_one(next(start, first).0, second);
            }
        },
        None => {
            lemma_run_of_one(start, EventView::Unreachable);
        },
    }
}

/// The handling of a request, from its beginning to its response. The
/// data service is asked first; the time service is asked only where the
/// data service gave a payload; and the response is the outcome of the
/// two fetches. Between the beginning and the response the handler asks
/// for nothing but the bodies and, at most once, the time service.
pub proof fn lemma_handling(
    config: ConfigView,
    query: Option<Seq<char>>,
    data_status: Option<u16>,
    data_body: Option<ModelView>,
    time_status: Option<u16>,
    time_body: Option<ServiceCModel>,
)
    ensures
        ({
            let data = classify(data_status, data_body);
            let time = classify(time_status, time_body);
            let events = if data is Ok {
                data_exchange(data_status, data_body) + time_exchange(time_status, time_body)
            } else {
                data_exchange(data_status, data_body)
            };
            let start = begin(config, query).0;
            let end = state_after(start, events);
            let actions = actions_of(start, events);
            &&& actions.len() == events.len()
            &&& actions.last() == ActionView::Respond(
                if data is Ok {
                    outcome(data, time)
                } else {
                    failure(data->Err_0)
                },
            )
            &&& end.state is Complete || end.state is DataFailed || end.state is TimeFailed
            &&& end.state is Complete <==> data is Ok && time is Ok
            &&& end.state is DataFailed <==> data is Err
            &&& forall|i: int|
                0 <= i < actions.len() ==> (#[trigger] actions[i] is Get ==> data is Ok)
        }),
{
    let data = classify(data_status, data_body);
    let start = begin(config, query).0;
    let first = data_exchange(data_status, data_body);
    lemma_data_exchange(config, query, data_status, data_body);
    if data is Ok {
        let second = time_exchange(time_status, time_body);
        lemma_run_in_parts(start, first, second);
        lemma_time_exchange(config, data->Ok_0, time_status, time_body);
        assert(state_after(start, first) == HandlerView {
            config,
            state: StateView::AwaitingTimeResult(Stage::Head, data->Ok_0),
        });
    } else {
        let actions = actions_of(start, first);
        assert forall|i: int| 0 <= i < actions.len() implies !(#[trigger] actions[i] is Get) by {
            if i < actions.len() - 1 {
                assert(actions[i] == ActionView::ReadBody(Dependency::Data));
            }
        }
    }
}

/// A request whose two dependencies both answer with a 2xx status and a
/// usable body is answered with status 200 and a body whose fields are the
/// payloads' fields, unchanged: `key_one` and `key_two` from the data
/// service, `key_time` from the time service. On the way the body of each
/// response is asked for, and the time service is asked after the data
/// service has answered.
pub proof fn lemma_success_merges(
    config: ConfigView,
    query: Option<Seq<char>>,
    data_status: u16,
    data: ModelView,
    time_status: u16,
    time: ServiceCModel,
)
    requires
        is_success(data_status),
        is_success(time_status),
    ensures
        ({
            let events = seq![
                EventView::Status(data_status),
                EventView::Data(Some(data)),
                EventView::Status(time_status),
                EventView::Time(Some(time)),
            ];
            let start = begin(config, query).0;
            &&& state_after(start, events).state == StateView::Complete
            &&& actions_of(start, events) == seq![
                ActionView::ReadBody(Dependency::Data),
                ActionView::Get { dependency: Dependency::Time, url: time_url(config) },
                ActionView::ReadBody(Dependency::Time),
                ActionView::Respond(
                    ResponseView {
                        status: 200,
                        body: Some(
                            ExternalModelView {
                                key_one: data.key_one,
                                key_two: data.key_two,
                                key_time: time.key_time,
                            },
                        ),
                    },
                ),
            ]
        }),
{
    let events = seq![
        EventView::Status(data_status),
        EventView::Data(Some(data)),
        EventView::Status(time_status),
        EventView::Time(Some(time)),
    ];
    let start = begin(config, query).0;
    assert(events.take(0) =~= Seq::empty());
    assert(events.take(1).drop_last() =~= events.take(0));
    assert(events.take(2).drop_last() =~= events.take(1));
    assert(events.take(3).drop_last() =~= events.take(2));
    assert(events.drop_last() =~= events.take(3));
    assert(state_after(start, events.take(0)) == start);
    assert(state_after(start, events.take(1)).state == StateView::AwaitingDataResult(Stage::Body));
    assert(state_after(start, events.take(2)).state == StateView::AwaitingTimeResult(
        Stage::Head,
        data,
    ));
    assert(state_after(start, events.take(3)).state == StateView::AwaitingTimeResult(
        Stage::Body,
        data,
    ));
    assert(actions_of(start, events.take(0)) =~= Seq::empty());
    assert(actions_of(start, events.take(1)).len() == 1);
    assert(actions_of(start, events.take(2)).len() == 2);
    assert(actions_of(start, events.take(3)).len() == 3);
    assert(actions_of(start, events) =~= seq![
        ActionView::ReadBody(Dependency::Data),
        ActionView::Get { dependency: Dependency::Time, url: time_url(config) },
        ActionView::ReadBody(Dependency::Time),
        ActionView::Respond(success(merged(data, time))),
    ]);
}

/// A response carries a body only where the time service's payload
/// arrives after the data service's: no partial response is ever built,
/// and the body is then the merge of the two payloads under status 200.
pub proof fn lemma_body_only_after_both(handler: HandlerView, event: EventView)
    ensures
        next(handler, event).1 matches ActionView::Respond(response) ==> {
            &&& response.body is Some <==> response.status == STATUS_OK
            &&& response.body is Some <==> next(handler, event).0.state == StateView::Complete
            &&& response.body matches Some(body) ==> {
                &&& handler.state matches StateView::AwaitingTimeResult(Stage::Body, data)
                &&& event matches EventView::Time(Some(time))
                &&& body == merged(data, time)
            }
        },
{
}

/// Once the handling of a request has ended, in success or in failure,
/// every further event is answered with nothing and changes nothing.
pub proof fn lemma_ended_stays_ended(handler: HandlerView, events: Seq<EventView>)
    requires
        handler.state is Complete || handler.state is DataFailed || handler.state is TimeFailed,
    ensures
        state_after(handler, events) == handler,
        actions_of(handler, events).len() == events.len(),
        forall|i: int|
            0 <= i < events.len() ==> #[trigger] actions_of(handler, events)[i]
                == ActionView::Nothing,
    decreases events.len(),
{
    if events.len() > 0 {
        lemma_ended_stays_ended(handler, events.drop_last());
    }
}

/// A run may be taken in two parts: the second part runs from the state
/// that the first part ends in, and its actions follow the first part's.
pub proof fn lemma_run_in_parts(handler: HandlerView, first: Seq<EventView>, second: Seq<EventView>)
    ensures
        state_after(handler, first + second) == state_after(state_after(handler, first), second),
        actions_of(handler, first + second) == actions_of(handler, first) + actions_of(
            state_after(handler, first),
            second,
        ),
    decreases second.len(),
{
    let all = first + second;
    let middle = state_after(handler, first);
    if second.len() == 0 {
        assert(all =~= first);
        assert(actions_of(handler, first) + actions_of(middle, second) =~= actions_of(
            handler,
            first,
        ));
    } else {
        lemma_run_in_parts(handler, first, second.drop_last());
        assert(all.drop_last() =~= first + second.drop_last());
        assert(all.last() == second.last());
        assert(actions_of(handler, all) =~= actions_of(handler, first) + actions_of(
            middle,
            second,
        ));
    }
}

/// A run of one event is one step.
pub proof fn lemma_run_of_one(handler: HandlerView, event: EventView)
    ensures
        state_after(handler, seq![event]) == next(handler, event).0,
        actions_of(handler, seq![event]) == seq![next(handler, event).1],
{
    let events = seq![event];
    assert(events.drop_last() =~= Seq::empty());
    assert(state_after(handler, events.drop_last()) == handler);
    assert(actions_of(handler, events.drop_last()) =~= Seq::empty());
    assert(actions_of(handler, events) =~= seq![next(handler, event).1]);
}

/// A failure of the data service ends the handling at once. Whatever is
/// reported afterwards, the failure's response is the only thing the
/// handler asks for: no GET follows, so the time service is never asked.
pub proof fn lemma_data_failure_short_circuits(handler: HandlerView, events: Seq<EventView>)
    requires
        handler.state is AwaitingDataResult,
        events.len() > 0,
        next(handler, events[0]).0.state is DataFailed,
    ensures
        state_after(handler, events).state is DataFailed,
        actions_of(handler, events).len() == events.len(),
        actions_of(handler, events)[0] matches ActionView::Respond(response) && response.body
            is None,
        forall|i: int|
            0 < i < events.len() ==> #[trigger] actions_of(handler, events)[i]
                == ActionView::Nothing,
        forall|i: int|
            0 <= i < events.len() ==> !(#[trigger] actions_of(handler, events)[i] is Get),
{
    let rest = events.subrange(1, events.len() as int);
    assert(events =~= seq![events[0]] + rest);
    lemma_run_in_parts(handler, seq![events[0]], rest);
    lemma_run_of_one(handler, events[0]);
    lemma_ended_stays_ended(next(handler, events[0]).0, rest);
    let actions = actions_of(handler, events);
    assert forall|i: int| 0 < i < events.len() implies #[trigger] actions[i]
        == ActionView::Nothing by {
        assert(actions[i] == actions_of(next(handler, events[0]).0, rest)[i - 1]);
    }
}

/// Where the data service cannot be reached, the request is answered with
/// the transport error status and no body, and the time service is never
/// asked, whatever is reported afterwards.
pub proof fn lemma_unreachable_data(
    config: ConfigView,
    query: Option<Seq<char>>,
    later: Seq<EventView>,
)
    ensures
        ({
            let events = seq![EventView::Unreachable] + later;
            let actions = actions_of(begin(config, query).0, events);
            &&& actions.len() == events.len()
            &&& actions[0] == ActionView::Respond(
                ResponseView { status: STATUS_TRANSPORT_ERROR, body: None },
            )
            &&& forall|i: int| 0 <= i < actions.len() ==> !(#[trigger] actions[i] is Get)
        }),
{
    let events = seq![EventView::Unreachable] + later;
    let start = begin(config, query).0;
    lemma_data_failure_short_circuits(start, events);
    lemma_run_in_parts(start, seq![EventView::Unreachable], later);
    lemma_run_of_one(start, EventView::Unreachable);
}

/// A failure of the time service, after the data service has answered,
/// ends the handling with the failure's status and no body: the transport
/// error status where the service cannot be reached, and the client-facing
/// status where it answers outside the 2xx range or with an unusable body.
/// The data service's payload is dropped, not merged.
pub proof fn lemma_time_failure(config: ConfigView, data: ModelView, code: u16)
    ensures
        next(
            HandlerView { config, state: StateView::AwaitingTimeResult(Stage::Head, data) },
            EventView::Unreachable,
        ) == (
            HandlerView { config, state: StateView::TimeFailed },
            ActionView::Respond(ResponseView { status: STATUS_TRANSPORT_ERROR, body: None }),
        ),
        !is_success(code) ==> next(
            HandlerView { config, state: StateView::AwaitingTimeResult(Stage::Head, data) },
            EventView::Status(code),
        ) == (
            HandlerView { config, state: StateView::TimeFailed },
            ActionView::Respond(ResponseView { status: STATUS_BAD_UPSTREAM, body: None }),
        ),
        next(
            HandlerView { config, state: StateView::AwaitingTimeResult(Stage::Body, data) },
            EventView::Time(None),
        ) == (
            HandlerView { config, state: StateView::TimeFailed },
            ActionView::Respond(ResponseView { status: STATUS_BAD_UPSTREAM, body: None }),
        ),
{
}

/// A 2xx response whose body cannot be read as the payload fails the
/// dependency with the client-facing status, for either dependency.
pub proof fn lemma_unusable_body(config: ConfigView, data: ModelView)
    ensures
        next(
            HandlerView { config, state: StateView::AwaitingDataResult(Stage::Body) },
            EventView::Data(None),
        ) == (
            HandlerView { config, state: StateView::DataFailed },
            ActionView::Respond(ResponseView { status: STATUS_BAD_UPSTREAM, body: None }),
        ),
        next(
            HandlerView { config, state: StateView::AwaitingTimeResult(Stage::Body, data) },
            EventView::Time(None),
        ) == (
            HandlerView { config, state: StateView::TimeFailed },
            ActionView::Respond(ResponseView { status: STATUS_BAD_UPSTREAM, body: None }),
        ),
{
}

/// How many of the actions ask for a GET.
pub open spec fn gets(actions: Seq<ActionView>) -> nat
    decreases actions.len(),
{
    if actions.len() == 0 {
        0
    } else if actions.last() is Get {
        gets(actions.drop_last()) + 1
    } else {
        gets(actions.drop_last())
    }
}

/// No dependency is asked twice. After the GET that begins the handling,
/// at most one more is asked for, whatever is reported and however long
/// the run; it goes to the time service, and it is asked for only while
/// the data service's answer is awaited.
pub proof fn lemma_at_most_one_more_get(handler: HandlerView, events: Seq<EventView>)
    ensures
        actions_of(handler, events).len() == events.len(),
        gets(actions_of(handler, events)) <= 1,
        gets(actions_of(handler, events)) == 1 ==> handler.state is AwaitingDataResult
            && !(state_after(handler, events).state is AwaitingDataResult),
        !(handler.state is AwaitingDataResult) ==> !(state_after(handler, events).state
            is AwaitingDataResult),
        forall|i: int|
            0 <= i < events.len() ==> (#[trigger] actions_of(handler, events)[i]
                matches ActionView::Get { dependency, url } ==> dependency == Dependency::Time
                && url == time_url(handler.config)),
        state_after(handler, events).config == handler.config,
    decreases events.len(),
{
    if events.len() > 0 {
        lemma_at_most_one_more_get(handler, events.drop_last());
        let actions = actions_of(handler, events);
        assert(actions.drop_last() =~= actions_of(handler, events.drop_last()));
    }
}

/// Two runs from the same state whose events differ at most in the
/// timestamps that the time service reports pass through the same states
/// and ask for the same things, up to the timestamp in the response. In
/// particular the same events always give the same actions.
pub proof fn lemma_repeatable(
    handler: HandlerView,
    events: Seq<EventView>,
    others: Seq<EventView>,
)
    requires
        events.len() == others.len(),
        forall|i: int| 0 <= i < events.len() ==> events_agree(#[trigger] events[i], others[i]),
    ensures
        state_after(handler, events) == state_after(handler, others),
        actions_of(handler, events).len() == events.len(),
        actions_of(handler, others).len() == events.len(),
        forall|i: int|
            0 <= i < events.len() ==> actions_agree(
                #[trigger] actions_of(handler, events)[i],
                actions_of(handler, others)[i],
            ),
    decreases events.len(),
{
    if events.len() > 0 {
        let shorter = events.drop_last();
        let other_shorter = others.drop_last();
        assert forall|i: int| 0 <= i < shorter.len() implies events_agree(
            #[trigger] shorter[i],
            other_shorter[i],
        ) by {
            assert(events_agree(events[i], others[i]));
        }
        lemma_repeatable(handler, shorter, other_shorter);
        assert(events_agree(events[events.len() - 1], others[events.len() - 1]));
        let before = state_after(handler, shorter);
        assert(actions_agree(next(before, events.last()).1, next(before, others.last()).1));
        assert forall|i: int| 0 <= i < events.len() implies actions_agree(
            #[trigger] actions_of(handler, events)[i],
            actions_of(handler, others)[i],
        ) by {
            if i < shorter.len() {
                assert(actions_of(handler, events)[i] == actions_of(handler, shorter)[i]);
                assert(actions_of(handler, others)[i] == actions_of(handler, other_shorter)[i]);
                assert(actions_agree(
                    actions_of(handler, shorter)[i],
                    actions_of(handler, other_shorter)[i],
                ));
            }
        }
    }
}

} // verus!
