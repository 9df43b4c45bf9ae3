//! Many calls at once, sharing one handle.
//!
//! Callers take turns in any order. A turn is one caller's host reporting
//! back on that caller's outstanding request. The lock around the handle is
//! held for a single read or a single store, so a read or a store is one
//! turn, and between a caller's read and its later store any number of other
//! callers may have had theirs.

use vstd::prelude::*;
use crate::config::Config;
use crate::health::{health_of, HealthStatus};
use crate::error::SidecarErrorView;
use crate::sequential::{handle_after, launches_in, probes_in};
use crate::supervisor::{answers, initial_session, next_session, outcome_of, probe_of,
    request_of, ActionView, EventView, SessionView, StageView};

verus! {

/// The handle and every call in progress on it.
pub struct Shared {
    /// What the handle holds.
    pub cache: Option<u16>,
    /// The calls, one per caller.
    pub sessions: Seq<SessionView>,
    /// For each caller, the requests its host has carried out so far.
    pub carried_out: Seq<Seq<ActionView>>,
    /// The ports that have answered a probe with success so far.
    pub confirmed: Set<u16>,
}

/// One caller's host reporting back.
pub struct Turn {
    pub caller: int,
    pub event: EventView,
}

/// Callers that have all just begun, on a handle holding `cache`.
pub open spec fn begin_all(cache: Option<u16>, configs: Seq<Config>) -> Shared {
    Shared {
        cache,
        sessions: Seq::new(configs.len(), |i: int| initial_session(configs[i])),
        carried_out: Seq::new(configs.len(), |i: int| Seq::empty()),
        confirmed: Set::empty(),
    }
}

/// Whether `turn` can be taken: the caller exists, the report answers the
/// caller's outstanding request, and a report on reading the handle says
/// what the handle holds at this moment.
pub open spec fn permitted(shared: Shared, turn: Turn) -> bool {
    &&& 0 <= turn.caller < shared.sessions.len()
    &&& answers(shared.sessions[turn.caller], turn.event)
    &&& request_of(shared.sessions[turn.caller]) is ReadCache ==> turn.event == EventView::Cache(
        shared.cache,
    )
}

/// Whether `turn` is a probe answered with success.
pub open spec fn confirms(shared: Shared, turn: Turn) -> bool {
    &&& request_of(shared.sessions[turn.caller]) is Probe
    &&& turn.event matches EventView::ProbeAnswered(response)
    &&& health_of(response) == HealthStatus::Healthy
}

/// Everything after `turn` was taken.
pub open spec fn after_turn(shared: Shared, turn: Turn) -> Shared {
    let session = shared.sessions[turn.caller];
    let request = request_of(session);
    Shared {
        cache: match request {
            ActionView::WriteCache(port) => Some(port),
            _ => shared.cache,
        },
        sessions: shared.sessions.update(turn.caller, next_session(session, turn.event)),
        carried_out: shared.carried_out.update(
            turn.caller,
            shared.carried_out[turn.caller].push(request),
        ),
        confirmed: if confirms(shared, turn) {
            shared.confirmed.insert(request->Probe_port)
        } else {
            shared.confirmed
        },
    }
}

/// Everything after `turns` were taken, in order.
pub open spec fn after_turns(shared: Shared, turns: Seq<Turn>) -> Shared
    decreases turns.len(),
{
    if turns.len() == 0 {
        shared
    } else {
        after_turn(after_turns(shared, turns.drop_last()), turns.last())
    }
}

/// Whether each of `turns` can be taken when its time comes.
pub open spec fn all_permitted(shared: Shared, turns: Seq<Turn>) -> bool
    decreases turns.len(),
{
    turns.len() == 0 || (all_permitted(shared, turns.drop_last()) && permitted(
        after_turns(shared, turns.drop_last()),
        turns.last(),
    ))
}

/// Whether every probe of `port` among `turns` is answered with success.
pub open spec fn port_answers_healthy(shared: Shared, turns: Seq<Turn>, port: u16) -> bool
    decreases turns.len(),
{
    turns.len() == 0 || (port_answers_healthy(shared, turns.drop_last(), port) && {
        let now = after_turns(shared, turns.drop_last());
        let turn = turns.last();
        0 <= turn.caller < now.sessions.len() && request_of(now.sessions[turn.caller])
            == probe_of(port) ==> confirms(now, turn)
    })
}

/// Where a caller stands that is reusing `port`: it has yet to read the
/// handle, or it has read it and is probing `port`, or it has returned
/// `port` after exactly that one read and one probe.
pub open spec fn reusing(session: SessionView, carried_out: Seq<ActionView>, port: u16) -> bool {
    ||| session.stage == StageView::ReadingCache && carried_out == Seq::<ActionView>::empty()
    ||| session.stage == (StageView::ProbingCached { port }) && carried_out == seq![
        ActionView::ReadCache,
    ]
    ||| session.stage == (StageView::Finished { outcome: Ok(port) }) && carried_out == seq![
        ActionView::ReadCache,
        probe_of(port),
    ]
}

/// Whether the handle holds `port` and every caller is reusing it.
pub open spec fn all_reusing(shared: Shared, port: u16) -> bool {
    &&& shared.cache == Some(port)
    &&& shared.carried_out.len() == shared.sessions.len()
    &&& forall|i: int|
        0 <= i < shared.sessions.len() ==> reusing(
            #[trigger] shared.sessions[i],
            shared.carried_out[i],
            port,
        )
}

proof fn lemma_reuse_survives_a_turn(shared: Shared, turn: Turn, port: u16)
    requires
        all_reusing(shared, port),
        permitted(shared, turn),
        request_of(shared.sessions[turn.caller]) == probe_of(port) ==> confirms(shared, turn),
    ensures
        all_reusing(after_turn(shared, turn), port),
{
    let next = after_turn(shared, turn);
    let session = shared.sessions[turn.caller];
    assert(reusing(session, shared.carried_out[turn.caller], port));
    assert forall|i: int| 0 <= i < next.sessions.len() implies reusing(
        #[trigger] next.sessions[i],
        next.carried_out[i],
        port,
    ) by {
        if i == turn.caller {
            if session.stage == StageView::ReadingCache {
                assert(next.carried_out[i] =~= seq![ActionView::ReadCache]);
            } else {
                assert(session.stage == (StageView::ProbingCached { port }));
                assert(next.carried_out[i] =~= seq![ActionView::ReadCache, probe_of(port)]);
            }
        } else {
            assert(reusing(shared.sessions[i], shared.carried_out[i], port));
        }
    }
}

/// Reuse under concurrency: on a handle that holds a port which answers
/// every probe with success, any number of callers, taking their turns in
/// any order, each return that port after one read of the handle and one
/// probe. None of them scans for a port, starts a process or stores
/// anything, and the handle holds the same port throughout. This holds at
/// every moment, so also of the callers that have not returned yet.
pub proof fn law_concurrent_callers_reuse(port: u16, configs: Seq<Config>, turns: Seq<Turn>)
    requires
        all_permitted(begin_all(Some(port), configs), turns),
        port_answers_healthy(begin_all(Some(port), configs), turns, port),
    ensures
        all_reusing(after_turns(begin_all(Some(port), configs), turns), port),
        after_turns(begin_all(Some(port), configs), turns).cache == Some(port),
        forall|i: int|
            0 <= i < configs.len() ==> launches_in(
                #[trigger] after_turns(begin_all(Some(port), configs), turns).carried_out[i],
            ) == 0,
        forall|i: int|
            0 <= i < configs.len() && request_of(
                #[trigger] after_turns(begin_all(Some(port), configs), turns).sessions[i],
            ) is Done ==> outcome_of(after_turns(begin_all(Some(port), configs), turns).sessions[i])
                == Some(Ok::<u16, SidecarErrorView>(port)) && probes_in(
                after_turns(begin_all(Some(port), configs), turns).carried_out[i],
            ) == 1,
{
    lemma_all_keep_reusing(port, configs, turns);
    let end = after_turns(begin_all(Some(port), configs), turns);
    lemma_callers_stay(begin_all(Some(port), configs), turns);
    assert forall|i: int| 0 <= i < configs.len() implies launches_in(
        #[trigger] end.carried_out[i],
    ) == 0 && (request_of(end.sessions[i]) is Done ==> outcome_of(end.sessions[i]) == Some(
        Ok::<u16, SidecarErrorView>(port),
    ) && probes_in(end.carried_out[i]) == 1) by {
        assert(reusing(end.sessions[i], end.carried_out[i], port));
        lemma_effects_of_reuse(end.sessions[i], end.carried_out[i], port);
    }
}

proof fn lemma_all_keep_reusing(port: u16, configs: Seq<Config>, turns: Seq<Turn>)
    requires
        all_permitted(begin_all(Some(port), configs), turns),
        port_answers_healthy(begin_all(Some(port), configs), turns, port),
    ensures
        all_reusing(after_turns(begin_all(Some(port), configs), turns), port),
    decreases turns.len(),
{
    let start = begin_all(Some(port), configs);
    if turns.len() == 0 {
        assert forall|i: int| 0 <= i < start.sessions.len() implies reusing(
            #[trigger] start.sessions[i],
            start.carried_out[i],
            port,
        ) by {}
    } else {
        lemma_all_keep_reusing(port, configs, turns.drop_last());
        lemma_reuse_survives_a_turn(after_turns(start, turns.drop_last()), turns.last(), port);
    }
}

/// Turns neither add nor remove callers.
proof fn lemma_callers_stay(shared: Shared, turns: Seq<Turn>)
    requires
        all_permitted(shared, turns),
        shared.carried_out.len() == shared.sessions.len(),
    ensures
        after_turns(shared, turns).sessions.len() == shared.sessions.len(),
        after_turns(shared, turns).carried_out.len() == shared.sessions.len(),
    decreases turns.len(),
{
    if turns.len() > 0 {
        lemma_callers_stay(shared, turns.drop_last());
    }
}

/// What a caller that is reusing `port` has had carried out: no launch, and
/// by the time it has returned, exactly one probe.
proof fn lemma_effects_of_reuse(session: SessionView, carried_out: Seq<ActionView>, port: u16)
    requires
        reusing(session, carried_out, port),
    ensures
        launches_in(carried_out) == 0,
        request_of(session) is Done ==> outcome_of(session) == Some(
            Ok::<u16, SidecarErrorView>(port),
        ) && probes_in(carried_out) == 1,
{
    reveal_with_fuel(launches_in, 3);
    reveal_with_fuel(probes_in, 3);
    let read = seq![ActionView::ReadCache];
    let both = seq![ActionView::ReadCache, probe_of(port)];
    assert(read.drop_last() =~= Seq::<ActionView>::empty());
    assert(both.drop_last() =~= read);
}

/// Whether the handle can be relied on, `before` being what it held at the
/// start: it holds `before` or a port that has answered a probe with
/// success, it has not gone from holding a port to holding none, and every
/// caller is `settled`.
pub open spec fn trusted(shared: Shared, before: Option<u16>) -> bool {
    &&& shared.cache == before || (shared.cache matches Some(port) && shared.confirmed.contains(
        port,
    ))
    &&& before is Some ==> shared.cache is Some
    &&& forall|i: int|
        0 <= i < shared.sessions.len() ==> settled(#[trigger] shared.sessions[i], shared)
}

/// What the stage of one caller says about the handle and the probes so
/// far: a port about to be stored or already returned has answered a probe
/// with success, and once a caller has seen or stored a port, the handle
/// holds one.
pub open spec fn settled(session: SessionView, shared: Shared) -> bool {
    match session.stage {
        StageView::ProbingCached { port } => shared.cache is Some,
        StageView::Storing { port } => shared.confirmed.contains(port),
        StageView::Finished { outcome: Ok(port) } => shared.confirmed.contains(port)
            && shared.cache is Some,
        _ => true,
    }
}

proof fn lemma_trust_survives_a_turn(shared: Shared, turn: Turn, before: Option<u16>)
    requires
        trusted(shared, before),
        permitted(shared, turn),
    ensures
        trusted(after_turn(shared, turn), before),
{
    let next = after_turn(shared, turn);
    let session = shared.sessions[turn.caller];
    assert(settled(session, shared));
    assert forall|i: int| 0 <= i < next.sessions.len() implies settled(
        #[trigger] next.sessions[i],
        next,
    ) by {
        if i != turn.caller {
            assert(settled(shared.sessions[i], shared));
        }
    }
}

/// The handle can be relied on: whatever the callers' configurations and
/// the order of their turns, the handle holds what it held at the start or a
/// port that has answered a probe with success; every port a caller has
/// returned has answered a probe with success; and once any caller has
/// returned a port, the handle holds one.
pub proof fn law_stored_and_returned_ports_were_healthy(
    before: Option<u16>,
    configs: Seq<Config>,
    turns: Seq<Turn>,
)
    requires
        all_permitted(begin_all(before, configs), turns),
    ensures
        trusted(after_turns(begin_all(before, configs), turns), before),
        after_turns(begin_all(before, configs), turns).cache != before ==> after_turns(
            begin_all(before, configs),
            turns,
        ).cache is Some && after_turns(begin_all(before, configs), turns).confirmed.contains(
            after_turns(begin_all(before, configs), turns).cache->0,
        ),
        forall|i: int, port: u16|
            0 <= i < configs.len() && outcome_of(
                #[trigger] after_turns(begin_all(before, configs), turns).sessions[i],
            ) == Some(Ok::<u16, SidecarErrorView>(port)) ==> #[trigger] after_turns(
                begin_all(before, configs),
                turns,
            ).confirmed.contains(port) && after_turns(
                begin_all(before, configs),
                turns,
            ).cache is Some,
{
    lemma_all_stay_trusted(before, configs, turns);
    let end = after_turns(begin_all(before, configs), turns);
    lemma_callers_stay(begin_all(before, configs), turns);
    assert forall|i: int, port: u16|
        0 <= i < configs.len() && outcome_of(#[trigger] end.sessions[i]) == Some(
            Ok::<u16, SidecarErrorView>(port),
        ) implies #[trigger] end.confirmed.contains(port) && end.cache is Some by {
        assert(settled(end.sessions[i], end));
    }
}

proof fn lemma_all_stay_trusted(before: Option<u16>, configs: Seq<Config>, turns: Seq<Turn>)
    requires
        all_permitted(begin_all(before, configs), turns),
    ensures
        trusted(after_turns(begin_all(before, configs), turns), before),
    decreases turns.len(),
{
    let start = begin_all(before, configs);
    if turns.len() == 0 {
        assert forall|i: int| 0 <= i < start.sessions.len() implies settled(
            #[trigger] start.sessions[i],
            start,
        ) by {}
    } else {
        lemma_all_stay_trusted(before, configs, turns.drop_last());
        lemma_trust_survives_a_turn(after_turns(start, turns.drop_last()), turns.last(), before);
    }
}

/// The requests carried out during `turns`, in the order of the turns.
pub open spec fn carried_out_in_order(shared: Shared, turns: Seq<Turn>) -> Seq<ActionView>
    decreases turns.len(),
{
    if turns.len() == 0 {
        Seq::empty()
    } else {
        carried_out_in_order(shared, turns.drop_last()).push(
            request_of(after_turns(shared, turns.drop_last()).sessions[turns.last().caller]),
        )
    }
}

/// No stale port: at every moment the handle holds the port of the latest
/// store that any caller has completed, or what it held at the start if
/// there has been none. A read is permitted only if it reports what the
/// handle holds at its turn, so every read sees the latest completed store.
pub proof fn law_handle_holds_the_latest_store(shared: Shared, turns: Seq<Turn>)
    ensures
        after_turns(shared, turns).cache == handle_after(
            shared.cache,
            carried_out_in_order(shared, turns),
        ),
    decreases turns.len(),
{
    if turns.len() > 0 {
        law_handle_holds_the_latest_store(shared, turns.drop_last());
        let earlier = carried_out_in_order(shared, turns.drop_last());
        let request = request_of(
            after_turns(shared, turns.drop_last()).sessions[turns.last().caller],
        );
        assert(earlier.push(request).drop_last() =~= earlier);
    }
}

} // verus!
