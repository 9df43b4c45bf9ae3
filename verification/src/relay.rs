//! One relayed call from beginning to end, against a host whose answers are
//! known.

use vstd::prelude::*;
use crate::config::Config;
use crate::error::SidecarErrorView;
use crate::proxy::{answer_outcome, call_request_of, call_result_of, endpoint_url_text,
    initial_call, next_call, stage_after_ensuring, HttpAnswerView, ProxyActionView, ProxyCallView,
    ProxyEventView, ProxyRequestView, ProxyStageView};
use crate::sequential::{call_outcome, call_requests, law_call_runs_to_its_outcome, longest_call,
    report, requests_made, session_after, Observations};
use crate::supervisor::{initial_session, next_session, outcome_of, request_of, ActionView,
    SessionView};

verus! {

/// The report the host gives to the outstanding request of `call`: what
/// `seen` holds while a sidecar is being made sure of, then `answer`.
pub open spec fn relay_report(call: ProxyCallView, seen: Observations, answer: HttpAnswerView)
    -> ProxyEventView {
    match call.stage {
        ProxyStageView::Ensuring(session) => ProxyEventView::Sidecar(report(session, seen)),
        _ => ProxyEventView::Answered(answer),
    }
}

/// The call after up to `exchanges` further requests have been answered, or
/// fewer if the call is over before.
pub open spec fn call_after(
    call: ProxyCallView,
    seen: Observations,
    answer: HttpAnswerView,
    exchanges: nat,
) -> ProxyCallView
    decreases exchanges,
{
    if exchanges == 0 || call_request_of(call) is Done {
        call
    } else {
        call_after(
            next_call(call, relay_report(call, seen, answer)),
            seen,
            answer,
            (exchanges - 1) as nat,
        )
    }
}

/// The requests made in up to `exchanges` further exchanges, in order.
pub open spec fn relay_requests_made(
    call: ProxyCallView,
    seen: Observations,
    answer: HttpAnswerView,
    exchanges: nat,
) -> Seq<ProxyActionView>
    decreases exchanges,
{
    if exchanges == 0 || call_request_of(call) is Done {
        Seq::empty()
    } else {
        seq![call_request_of(call)] + relay_requests_made(
            next_call(call, relay_report(call, seen, answer)),
            seen,
            answer,
            (exchanges - 1) as nat,
        )
    }
}

/// The most requests a relayed call can make before it is over.
pub open spec fn longest_relay() -> nat {
    longest_call() + 1
}

/// What a relayed call returns, given what making sure of a sidecar
/// returned: a failure there is the call's failure; with a port, the call
/// returns the reading of the answer.
pub open spec fn relay_outcome(ensured: Result<u16, SidecarErrorView>, answer: HttpAnswerView)
    -> Result<serde_json::Value, SidecarErrorView> {
    match ensured {
        Err(error) => Err(error),
        Ok(_) => answer_outcome(answer),
    }
}

/// The requests of the reuse-or-launch protocol as a relayed call passes
/// them on.
pub open spec fn passed_on(requests: Seq<ActionView>) -> Seq<ProxyActionView> {
    requests.map_values(|request: ActionView| ProxyActionView::Sidecar(request))
}

/// The request that follows once a sidecar is made sure of: one GET to the
/// endpoint on the port that was returned, and nothing after a failure.
pub open spec fn data_requests(request: ProxyRequestView, ensured: Result<u16, SidecarErrorView>)
    -> Seq<ProxyActionView> {
    match ensured {
        Err(_) => Seq::empty(),
        Ok(port) => seq![
            ProxyActionView::Get {
                url: endpoint_url_text(port, request.endpoint_path),
                timeout_millis: request.timeout_millis,
            },
        ],
    }
}

proof fn lemma_relay_follows_session(
    request: ProxyRequestView,
    session: SessionView,
    seen: Observations,
    answer: HttpAnswerView,
    exchanges: nat,
)
    requires
        !(request_of(session) is Done),
        outcome_of(session_after(session, seen, exchanges)) is Some,
    ensures
        ({
            let call = ProxyCallView { request, stage: ProxyStageView::Ensuring(session) };
            let ensured = outcome_of(session_after(session, seen, exchanges))->0;
            &&& call_result_of(call_after(call, seen, answer, exchanges + 1)) == Some(
                relay_outcome(ensured, answer),
            )
            &&& relay_requests_made(call, seen, answer, exchanges + 1) == passed_on(
                requests_made(session, seen, exchanges),
            ) + data_requests(request, ensured)
        }),
    decreases exchanges,
{
    let call = ProxyCallView { request, stage: ProxyStageView::Ensuring(session) };
    let ensured = outcome_of(session_after(session, seen, exchanges))->0;
    assert(exchanges > 0);
    let rest = (exchanges - 1) as nat;
    let moved = next_session(session, report(session, seen));
    let next = next_call(call, relay_report(call, seen, answer));
    assert(next == ProxyCallView { request, stage: stage_after_ensuring(moved) });
    assert(session_after(session, seen, exchanges) == session_after(moved, seen, rest));
    assert(call_after(call, seen, answer, exchanges + 1) == call_after(
        next,
        seen,
        answer,
        exchanges,
    ));
    let made = requests_made(session, seen, exchanges);
    let made_rest = requests_made(moved, seen, rest);
    assert(made =~= seq![request_of(session)] + made_rest);
    if request_of(moved) is Done {
        assert(session_after(moved, seen, rest) == moved);
        assert(made_rest =~= Seq::empty());
        match ensured {
            Err(_) => {
                assert(call_after(next, seen, answer, exchanges) == next);
                assert(relay_requests_made(next, seen, answer, exchanges) =~= Seq::empty());
            },
            Ok(port) => {
                let last = next_call(next, relay_report(next, seen, answer));
                assert(call_after(next, seen, answer, exchanges) == call_after(
                    last,
                    seen,
                    answer,
                    rest,
                ));
                assert(call_after(last, seen, answer, rest) == last);
                assert(relay_requests_made(last, seen, answer, rest) =~= Seq::empty());
                assert(relay_requests_made(next, seen, answer, exchanges) =~= data_requests(
                    request,
                    ensured,
                ));
            },
        }
    } else {
        lemma_relay_follows_session(request, moved, seen, answer, rest);
        assert(relay_requests_made(next, seen, answer, exchanges) == passed_on(made_rest)
            + data_requests(request, ensured));
    }
    assert(relay_requests_made(call, seen, answer, exchanges + 1) =~= passed_on(made)
        + data_requests(request, ensured));
}

/// A relayed call first makes sure of a sidecar, with the very requests and
/// the very outcome of the reuse-or-launch protocol. If that fails, the call
/// fails the same way and sends nothing. Otherwise it sends one GET to the
/// request's endpoint on the port it was given, with the request's timeout,
/// and returns the reading of the answer. It is over after at most
/// `longest_relay()` requests.
pub proof fn law_relay_runs_to_its_outcome(
    config: Config,
    request: ProxyRequestView,
    seen: Observations,
    answer: HttpAnswerView,
)
    ensures
        call_result_of(call_after(initial_call(config, request), seen, answer, longest_relay()))
            == Some(relay_outcome(call_outcome(config, seen), answer)),
        relay_requests_made(initial_call(config, request), seen, answer, longest_relay())
            == passed_on(call_requests(config, seen)) + data_requests(
            request,
            call_outcome(config, seen),
        ),
{
    law_call_runs_to_its_outcome(config, seen);
    lemma_relay_follows_session(request, initial_session(config), seen, answer, longest_call());
}

} // verus!
