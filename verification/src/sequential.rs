//! One call from beginning to end, against a host whose answers are known.
//!
//! The protocol itself only says what follows one report. Here the reports
//! of a whole call are fixed in advance, which makes it possible to say what
//! the call as a whole does: what it returns, and which requests it makes on
//! the way.

use vstd::prelude::*;
use crate::config::Config;
use crate::error::SidecarErrorView;
use crate::health::{health_of, HealthStatus};
use crate::launch::{plan_of, LaunchPlanView, SETTLE_MILLIS};
use crate::port::chosen_port;
use crate::resolver::{base_of, bundled_interpreter_text, python_command_text, script_path_text,
    ResolutionView};
use crate::supervisor::{initial_session, next_session, outcome_of, probe_of, request_of,
    ActionView, EventView, SessionView, StageView};

verus! {

/// What the host would find at each point of one call, were the call to get
/// there.
pub struct Observations {
    /// The port the handle holds when the call reads it.
    pub cache: Option<u16>,
    /// The answer to the probe of the cached port.
    pub cached_probe: Option<u16>,
    /// The directory the sidecar's files live under, or why it is unknown.
    pub base: Result<Seq<char>, Seq<char>>,
    /// Whether the script exists.
    pub script_exists: bool,
    /// Whether a bundled interpreter exists.
    pub bundled_exists: bool,
    /// What the port scan reports.
    pub scan: Result<u16, SidecarErrorView>,
    /// Whether the process can be created, and if not, why.
    pub spawn: Result<(), Seq<char>>,
    /// The answer to the probe of the new sidecar.
    pub fresh_probe: Option<u16>,
}

/// The report the host gives to the outstanding request of `session`.
pub open spec fn report(session: SessionView, seen: Observations) -> EventView {
    match session.stage {
        StageView::ReadingCache => EventView::Cache(seen.cache),
        StageView::ProbingCached { port } => EventView::ProbeAnswered(seen.cached_probe),
        StageView::LocatingBase => EventView::Base(seen.base),
        StageView::CheckingScript { base } => EventView::Exists(seen.script_exists),
        StageView::CheckingInterpreter { base } => EventView::Exists(seen.bundled_exists),
        StageView::Allocating { resolution } => EventView::PortScanned(seen.scan),
        StageView::Spawning { plan } => EventView::Spawned(seen.spawn),
        StageView::Settling { port } => EventView::Settled,
        StageView::ProbingFresh { port } => EventView::ProbeAnswered(seen.fresh_probe),
        StageView::Storing { port } => EventView::Stored,
        StageView::Finished { outcome } => EventView::Stored,
    }
}

/// The most requests a call can make before it is over.
pub open spec fn longest_call() -> nat {
    10
}

/// The session after up to `exchanges` further requests have been answered,
/// or fewer if the call is over before.
pub open spec fn session_after(session: SessionView, seen: Observations, exchanges: nat)
    -> SessionView
    decreases exchanges,
{
    if exchanges == 0 || request_of(session) is Done {
        session
    } else {
        session_after(next_session(session, report(session, seen)), seen, (exchanges - 1) as nat)
    }
}

/// The requests made in up to `exchanges` further exchanges, in order.
pub open spec fn requests_made(session: SessionView, seen: Observations, exchanges: nat) -> Seq<
    ActionView,
>
    decreases exchanges,
{
    if exchanges == 0 || request_of(session) is Done {
        Seq::empty()
    } else {
        seq![request_of(session)] + requests_made(
            next_session(session, report(session, seen)),
            seen,
            (exchanges - 1) as nat,
        )
    }
}

/// The session a call ends in.
pub open spec fn final_session(config: Config, seen: Observations) -> SessionView {
    session_after(initial_session(config), seen, longest_call())
}

/// Every request a call makes, from its first to the one before `Done`.
pub open spec fn call_requests(config: Config, seen: Observations) -> Seq<ActionView> {
    requests_made(initial_session(config), seen, longest_call())
}

/// Whether the call finds a cached port that answers its probe with success.
pub open spec fn reuses(seen: Observations) -> bool {
    seen.cache is Some && health_of(seen.cached_probe) == HealthStatus::Healthy
}

/// The port a launch would use.
pub open spec fn launch_port(seen: Observations) -> u16 {
    chosen_port(seen.scan)
}

/// What the launch would be made with, were the script found under `base`.
pub open spec fn launch_plan(config: Config, seen: Observations, base: Seq<char>)
    -> LaunchPlanView {
    plan_of(
        ResolutionView {
            script_path: script_path_text(base, config.platform),
            work_dir: base,
            interpreter: python_command_text(base, config.platform, seen.bundled_exists),
        },
        launch_port(seen),
    )
}

/// What a call returns when it has to start a sidecar.
pub open spec fn launch_outcome(config: Config, seen: Observations) -> Result<
    u16,
    SidecarErrorView,
> {
    match seen.base {
        Err(detail) => Err(SidecarErrorView::BaseUnavailable { mode: config.mode, detail }),
        Ok(base) => {
            if !seen.script_exists {
                Err(SidecarErrorView::ScriptNotFound(script_path_text(base, config.platform)))
            } else {
                match seen.spawn {
                    Err(reason) => Err(
                        SidecarErrorView::SpawnFailed {
                            command: python_command_text(
                                base,
                                config.platform,
                                seen.bundled_exists,
                            ),
                            reason,
                        },
                    ),
                    Ok(_) => {
                        if health_of(seen.fresh_probe) == HealthStatus::Healthy {
                            Ok(launch_port(seen))
                        } else {
                            Err(SidecarErrorView::SidecarUnavailable(health_of(seen.fresh_probe)))
                        }
                    },
                }
            }
        },
    }
}

/// What a call returns.
pub open spec fn call_outcome(config: Config, seen: Observations) -> Result<u16, SidecarErrorView> {
    if reuses(seen) {
        Ok(seen.cache->0)
    } else {
        launch_outcome(config, seen)
    }
}

/// The requests with which a call opens: it reads the cache, and probes the
/// port it found there, if it found one.
pub open spec fn opening_requests(seen: Observations) -> Seq<ActionView> {
    match seen.cache {
        Some(port) => seq![ActionView::ReadCache, probe_of(port)],
        None => seq![ActionView::ReadCache],
    }
}

/// The requests a call makes to start a sidecar, in order. The script is
/// looked for before anything else is touched; a port is scanned for only
/// once the script and the interpreter are settled; the new port is stored
/// only after its probe succeeded.
pub open spec fn launch_requests(config: Config, seen: Observations) -> Seq<ActionView> {
    let locate = seq![ActionView::Locate(base_of(config.mode))];
    match seen.base {
        Err(_) => locate,
        Ok(base) => {
            let look = locate.push(
                ActionView::CheckExists(script_path_text(base, config.platform)),
            );
            if !seen.script_exists {
                look
            } else {
                let start = look.push(
                    ActionView::CheckExists(bundled_interpreter_text(base, config.platform)),
                ).push(ActionView::AllocatePort).push(
                    ActionView::Spawn(launch_plan(config, seen, base)),
                );
                match seen.spawn {
                    Err(_) => start,
                    Ok(_) => {
                        let check = start.push(ActionView::Sleep { millis: SETTLE_MILLIS }).push(
                            probe_of(launch_port(seen)),
                        );
                        if health_of(seen.fresh_probe) == HealthStatus::Healthy {
                            check.push(ActionView::WriteCache(launch_port(seen)))
                        } else {
                            check
                        }
                    },
                }
            }
        },
    }
}

/// What the handle holds once the call is over: the new port if the call
/// stored one, else what it held before.
pub open spec fn cache_after(config: Config, seen: Observations) -> Option<u16> {
    if !reuses(seen) && launch_outcome(config, seen) is Ok {
        Some(launch_port(seen))
    } else {
        seen.cache
    }
}

/// Whether `session`, given `exchanges` more exchanges, ends with `outcome`
/// after making exactly `requests`.
spec fn ends_with(
    session: SessionView,
    seen: Observations,
    exchanges: nat,
    outcome: Result<u16, SidecarErrorView>,
    requests: Seq<ActionView>,
) -> bool {
    &&& outcome_of(session_after(session, seen, exchanges)) == Some(outcome)
    &&& requests_made(session, seen, exchanges) == requests
}

proof fn lemma_from_storing(config: Config, seen: Observations, port: u16, exchanges: nat)
    requires
        exchanges >= 1,
    ensures
        ends_with(
            SessionView { config, stage: StageView::Storing { port } },
            seen,
            exchanges,
            Ok(port),
            seq![ActionView::WriteCache(port)],
        ),
{
    let session = SessionView { config, stage: StageView::Storing { port } };
    let next = next_session(session, report(session, seen));
    assert(session_after(next, seen, (exchanges - 1) as nat) == next);
    assert(requests_made(next, seen, (exchanges - 1) as nat) =~= Seq::empty());
    assert(requests_made(session, seen, exchanges) =~= seq![ActionView::WriteCache(port)]);
}

/// What a call returns once its new sidecar is about to be probed.
spec fn fresh_outcome(seen: Observations, port: u16) -> Result<u16, SidecarErrorView> {
    if health_of(seen.fresh_probe) == HealthStatus::Healthy {
        Ok(port)
    } else {
        Err(SidecarErrorView::SidecarUnavailable(health_of(seen.fresh_probe)))
    }
}

/// The requests a call makes from the probe of its new sidecar on.
spec fn fresh_requests(seen: Observations, port: u16) -> Seq<ActionView> {
    if health_of(seen.fresh_probe) == HealthStatus::Healthy {
        seq![probe_of(port), ActionView::WriteCache(port)]
    } else {
        seq![probe_of(port)]
    }
}

proof fn lemma_from_probing_fresh(config: Config, seen: Observations, port: u16, exchanges: nat)
    requires
        exchanges >= 2,
    ensures
        ends_with(
            SessionView { config, stage: StageView::ProbingFresh { port } },
            seen,
            exchanges,
            fresh_outcome(seen, port),
            fresh_requests(seen, port),
        ),
{
    let session = SessionView { config, stage: StageView::ProbingFresh { port } };
    let next = next_session(session, report(session, seen));
    let rest = (exchanges - 1) as nat;
    if health_of(seen.fresh_probe) == HealthStatus::Healthy {
        lemma_from_storing(config, seen, port, rest);
    } else {
        assert(session_after(next, seen, rest) == next);
        assert(requests_made(next, seen, rest) =~= Seq::empty());
    }
    assert(requests_made(session, seen, exchanges) =~= fresh_requests(seen, port));
}

/// What a call returns once `plan` is about to be launched.
spec fn spawn_outcome(seen: Observations, plan: LaunchPlanView) -> Result<u16, SidecarErrorView> {
    match seen.spawn {
        Err(reason) => Err(
            SidecarErrorView::SpawnFailed { command: plan.executable_path, reason },
        ),
        Ok(_) => fresh_outcome(seen, plan.port),
    }
}

/// The requests a call makes from the launch of `plan` on.
spec fn spawn_requests(seen: Observations, plan: LaunchPlanView) -> Seq<ActionView> {
    match seen.spawn {
        Err(_) => seq![ActionView::Spawn(plan)],
        Ok(_) => seq![ActionView::Spawn(plan), ActionView::Sleep { millis: SETTLE_MILLIS }]
            + fresh_requests(seen, plan.port),
    }
}

proof fn lemma_from_spawning(
    config: Config,
    seen: Observations,
    plan: LaunchPlanView,
    exchanges: nat,
)
    requires
        exchanges >= 4,
    ensures
        ends_with(
            SessionView { config, stage: StageView::Spawning { plan } },
            seen,
            exchanges,
            spawn_outcome(seen, plan),
            spawn_requests(seen, plan),
        ),
{
    let session = SessionView { config, stage: StageView::Spawning { plan } };
    let next = next_session(session, report(session, seen));
    let rest = (exchanges - 1) as nat;
    match seen.spawn {
        Err(_) => {
            assert(session_after(next, seen, rest) == next);
            assert(requests_made(next, seen, rest) =~= Seq::empty());
        },
        Ok(_) => {
            let settled = next_session(next, report(next, seen));
            lemma_from_probing_fresh(config, seen, plan.port, (rest - 1) as nat);
            assert(session_after(next, seen, rest) == session_after(
                settled,
                seen,
                (rest - 1) as nat,
            ));
            assert(settled == SessionView {
                config,
                stage: StageView::ProbingFresh { port: plan.port },
            });
            assert(requests_made(next, seen, rest) =~= seq![
                ActionView::Sleep { millis: SETTLE_MILLIS },
            ] + fresh_requests(seen, plan.port));
        },
    }
    assert(requests_made(session, seen, exchanges) =~= spawn_requests(seen, plan));
}

proof fn lemma_from_checking_interpreter(
    config: Config,
    seen: Observations,
    base: Seq<char>,
    exchanges: nat,
)
    requires
        exchanges >= 6,
    ensures
        ends_with(
            SessionView { config, stage: StageView::CheckingInterpreter { base } },
            seen,
            exchanges,
            spawn_outcome(seen, launch_plan(config, seen, base)),
            seq![
                ActionView::CheckExists(bundled_interpreter_text(base, config.platform)),
                ActionView::AllocatePort,
            ] + spawn_requests(seen, launch_plan(config, seen, base)),
        ),
{
    let session = SessionView { config, stage: StageView::CheckingInterpreter { base } };
    let allocating = next_session(session, report(session, seen));
    let spawning = next_session(allocating, report(allocating, seen));
    let plan = launch_plan(config, seen, base);
    assert(spawning == SessionView { config, stage: StageView::Spawning { plan } });
    lemma_from_spawning(config, seen, plan, (exchanges - 2) as nat);
    assert(session_after(allocating, seen, (exchanges - 1) as nat) == session_after(
        spawning,
        seen,
        (exchanges - 2) as nat,
    ));
    assert(requests_made(allocating, seen, (exchanges - 1) as nat) =~= seq![
        ActionView::AllocatePort,
    ] + spawn_requests(seen, plan));
    assert(requests_made(session, seen, exchanges) =~= seq![
        ActionView::CheckExists(bundled_interpreter_text(base, config.platform)),
        ActionView::AllocatePort,
    ] + spawn_requests(seen, plan));
}

proof fn lemma_from_locating(config: Config, seen: Observations, exchanges: nat)
    requires
        exchanges >= 8,
    ensures
        ends_with(
            SessionView { config, stage: StageView::LocatingBase },
            seen,
            exchanges,
            launch_outcome(config, seen),
            launch_requests(config, seen),
        ),
{
    let session = SessionView { config, stage: StageView::LocatingBase };
    let next = next_session(session, report(session, seen));
    let rest = (exchanges - 1) as nat;
    match seen.base {
        Err(_) => {
            assert(session_after(next, seen, rest) == next);
            assert(requests_made(next, seen, rest) =~= Seq::empty());
            assert(requests_made(session, seen, exchanges) =~= launch_requests(config, seen));
        },
        Ok(base) => {
            let checked = next_session(next, report(next, seen));
            assert(session_after(next, seen, rest) == session_after(
                checked,
                seen,
                (rest - 1) as nat,
            ));
            if !seen.script_exists {
                assert(session_after(checked, seen, (rest - 1) as nat) == checked);
                assert(requests_made(checked, seen, (rest - 1) as nat) =~= Seq::empty());
                assert(requests_made(next, seen, rest) =~= seq![
                    ActionView::CheckExists(script_path_text(base, config.platform)),
                ]);
                assert(requests_made(session, seen, exchanges) =~= launch_requests(config, seen));
            } else {
                lemma_from_checking_interpreter(config, seen, base, (rest - 1) as nat);
                let plan = launch_plan(config, seen, base);
                assert(requests_made(next, seen, rest) =~= seq![
                    ActionView::CheckExists(script_path_text(base, config.platform)),
                    ActionView::CheckExists(bundled_interpreter_text(base, config.platform)),
                    ActionView::AllocatePort,
                ] + spawn_requests(seen, plan));
                assert(requests_made(session, seen, exchanges) =~= launch_requests(config, seen));
            }
        },
    }
}

/// Every call is over after at most `longest_call()` requests, returns
/// `call_outcome`, and has made exactly the opening requests followed, unless
/// the cached port was reused, by the launch requests.
pub proof fn law_call_runs_to_its_outcome(config: Config, seen: Observations)
    ensures
        outcome_of(final_session(config, seen)) == Some(call_outcome(config, seen)),
        reuses(seen) ==> call_requests(config, seen) == opening_requests(seen),
        !reuses(seen) ==> call_requests(config, seen) == opening_requests(seen) + launch_requests(
            config,
            seen,
        ),
{
    let session = initial_session(config);
    let next = next_session(session, report(session, seen));
    let locating = SessionView { config, stage: StageView::LocatingBase };
    match seen.cache {
        None => {
            lemma_from_locating(config, seen, 9);
            assert(next == locating);
            assert(final_session(config, seen) == session_after(next, seen, 9));
            assert(call_requests(config, seen) =~= opening_requests(seen) + launch_requests(
                config,
                seen,
            ));
        },
        Some(port) => {
            let probed = next_session(next, report(next, seen));
            assert(final_session(config, seen) == session_after(next, seen, 9));
            assert(session_after(next, seen, 9) == session_after(probed, seen, 8));
            if reuses(seen) {
                assert(session_after(probed, seen, 8) == probed);
                assert(requests_made(probed, seen, 8) =~= Seq::empty());
                assert(requests_made(next, seen, 9) =~= seq![probe_of(port)]);
                assert(call_requests(config, seen) =~= opening_requests(seen));
            } else {
                lemma_from_locating(config, seen, 8);
                assert(probed == locating);
                assert(requests_made(next, seen, 9) =~= seq![probe_of(port)] + launch_requests(
                    config,
                    seen,
                ));
                assert(call_requests(config, seen) =~= opening_requests(seen) + launch_requests(
                    config,
                    seen,
                ));
            }
        },
    }
}

/// How many of `requests` are probes.
pub open spec fn probes_in(requests: Seq<ActionView>) -> nat
    decreases requests.len(),
{
    if requests.len() == 0 {
        0
    } else if requests.last() is Probe {
        probes_in(requests.drop_last()) + 1
    } else {
        probes_in(requests.drop_last())
    }
}

/// How many of `requests` start a process.
pub open spec fn launches_in(requests: Seq<ActionView>) -> nat
    decreases requests.len(),
{
    if requests.len() == 0 {
        0
    } else if requests.last() is Spawn {
        launches_in(requests.drop_last()) + 1
    } else {
        launches_in(requests.drop_last())
    }
}

/// What the handle holds after `requests` have been carried out on a handle
/// that held `before`: the port of the last `WriteCache` among them, or
/// `before` if there is none.
pub open spec fn handle_after(before: Option<u16>, requests: Seq<ActionView>) -> Option<u16>
    decreases requests.len(),
{
    if requests.len() == 0 {
        before
    } else {
        match requests.last() {
            ActionView::WriteCache(port) => Some(port),
            _ => handle_after(before, requests.drop_last()),
        }
    }
}

/// Reuse: a call that finds a cached port answering its probe with success
/// returns that port, having read the cache and probed once. It starts no
/// process, scans no port, and leaves the handle as it was.
pub proof fn law_healthy_cached_port_is_reused(config: Config, seen: Observations, port: u16)
    requires
        seen.cache == Some(port),
        health_of(seen.cached_probe) == HealthStatus::Healthy,
    ensures
        outcome_of(final_session(config, seen)) == Some(Ok::<u16, SidecarErrorView>(port)),
        call_requests(config, seen) == seq![ActionView::ReadCache, probe_of(port)],
        probes_in(call_requests(config, seen)) == 1,
        launches_in(call_requests(config, seen)) == 0,
        handle_after(seen.cache, call_requests(config, seen)) == seen.cache,
{
    law_call_runs_to_its_outcome(config, seen);
    let requests = seq![ActionView::ReadCache, probe_of(port)];
    assert(call_requests(config, seen) =~= requests);
    assert(requests.drop_last() =~= seq![ActionView::ReadCache]);
    assert(requests.drop_last().drop_last() =~= Seq::<ActionView>::empty());
    reveal_with_fuel(probes_in, 3);
    reveal_with_fuel(launches_in, 3);
    reveal_with_fuel(handle_after, 3);
}

/// Lazy recovery: a call that finds a cached port which no longer answers
/// its probe with success goes on to start a sidecar, exactly as a call that
/// found no cached port does. Where that launch succeeds, the call returns
/// the new port, and its last request stores that port in the handle.
pub proof fn law_stale_cached_port_is_replaced(config: Config, seen: Observations, port: u16)
    requires
        seen.cache == Some(port),
        health_of(seen.cached_probe) != HealthStatus::Healthy,
    ensures
        outcome_of(final_session(config, seen)) == Some(launch_outcome(config, seen)),
        call_requests(config, seen) == seq![ActionView::ReadCache, probe_of(port)]
            + launch_requests(config, seen),
        launch_outcome(config, seen) is Ok ==> launch_outcome(config, seen) == Ok::<
            u16,
            SidecarErrorView,
        >(launch_port(seen)),
        launch_outcome(config, seen) is Ok ==> call_requests(config, seen).last()
            == ActionView::WriteCache(launch_port(seen)),
        launch_outcome(config, seen) is Ok ==> handle_after(
            seen.cache,
            call_requests(config, seen),
        ) == Some(launch_port(seen)),
{
    law_call_runs_to_its_outcome(config, seen);
    assert(opening_requests(seen) =~= seq![ActionView::ReadCache, probe_of(port)]);
}

/// A launch that succeeds has made eight requests in this order: locate the
/// base directory, look for the script, look for a bundled interpreter, scan
/// for a port, start the process, wait, probe the new port, store it.
pub proof fn law_successful_launch_in_full(config: Config, seen: Observations)
    requires
        launch_outcome(config, seen) is Ok,
    ensures
        seen.base is Ok,
        launch_requests(config, seen) == seq![
            ActionView::Locate(base_of(config.mode)),
            ActionView::CheckExists(script_path_text(seen.base->Ok_0, config.platform)),
            ActionView::CheckExists(bundled_interpreter_text(seen.base->Ok_0, config.platform)),
            ActionView::AllocatePort,
            ActionView::Spawn(launch_plan(config, seen, seen.base->Ok_0)),
            ActionView::Sleep { millis: SETTLE_MILLIS },
            probe_of(launch_port(seen)),
            ActionView::WriteCache(launch_port(seen)),
        ],
{
    assert(launch_requests(config, seen) =~= seq![
        ActionView::Locate(base_of(config.mode)),
        ActionView::CheckExists(script_path_text(seen.base->Ok_0, config.platform)),
        ActionView::CheckExists(bundled_interpreter_text(seen.base->Ok_0, config.platform)),
        ActionView::AllocatePort,
        ActionView::Spawn(launch_plan(config, seen, seen.base->Ok_0)),
        ActionView::Sleep { millis: SETTLE_MILLIS },
        probe_of(launch_port(seen)),
        ActionView::WriteCache(launch_port(seen)),
    ]);
}

/// A missing script fails fast: a call that needs to start a sidecar and
/// finds no script at the resolved path returns `ScriptNotFound` with that
/// path. Looking for the script is the last thing it does: no port is
/// scanned for, no process is started, and the handle is left as it was.
pub proof fn law_missing_script_fails_fast(config: Config, seen: Observations, base: Seq<char>)
    requires
        !reuses(seen),
        seen.base == Ok::<Seq<char>, Seq<char>>(base),
        !seen.script_exists,
    ensures
        outcome_of(final_session(config, seen)) == Some(
            Err::<u16, SidecarErrorView>(
                SidecarErrorView::ScriptNotFound(script_path_text(base, config.platform)),
            ),
        ),
        call_requests(config, seen).last() == ActionView::CheckExists(
            script_path_text(base, config.platform),
        ),
        forall|i: int|
            0 <= i < call_requests(config, seen).len() ==> !(#[trigger] call_requests(
                config,
                seen,
            )[i] is AllocatePort) && !(call_requests(config, seen)[i] is Spawn)
                && !(call_requests(config, seen)[i] is WriteCache),
        launches_in(call_requests(config, seen)) == 0,
        handle_after(seen.cache, call_requests(config, seen)) == seen.cache,
{
    law_call_runs_to_its_outcome(config, seen);
    let requests = call_requests(config, seen);
    let tail = seq![
        ActionView::Locate(base_of(config.mode)),
        ActionView::CheckExists(script_path_text(base, config.platform)),
    ];
    assert(launch_requests(config, seen) =~= tail);
    reveal_with_fuel(launches_in, 5);
    reveal_with_fuel(handle_after, 5);
    match seen.cache {
        None => {
            let all = seq![
                ActionView::ReadCache,
                ActionView::Locate(base_of(config.mode)),
                ActionView::CheckExists(script_path_text(base, config.platform)),
            ];
            assert(requests =~= all);
            assert(all.drop_last() =~= seq![
                ActionView::ReadCache,
                ActionView::Locate(base_of(config.mode)),
            ]);
            assert(all.drop_last().drop_last() =~= seq![ActionView::ReadCache]);
            assert(all.drop_last().drop_last().drop_last() =~= Seq::<ActionView>::empty());
        },
        Some(port) => {
            let all = seq![
                ActionView::ReadCache,
                probe_of(port),
                ActionView::Locate(base_of(config.mode)),
                ActionView::CheckExists(script_path_text(base, config.platform)),
            ];
            assert(requests =~= all);
            assert(all.drop_last() =~= seq![
                ActionView::ReadCache,
                probe_of(port),
                ActionView::Locate(base_of(config.mode)),
            ]);
            assert(all.drop_last().drop_last() =~= seq![ActionView::ReadCache, probe_of(port)]);
            assert(all.drop_last().drop_last().drop_last() =~= seq![ActionView::ReadCache]);
            assert(all.drop_last().drop_last().drop_last().drop_last() =~= Seq::<
                ActionView,
            >::empty());
        },
    }
}

/// The handle after a call holds the new port where the call started a
/// sidecar and found it ready, and what it held before in every other case.
pub proof fn law_handle_changes_only_on_success(config: Config, seen: Observations)
    ensures
        handle_after(seen.cache, call_requests(config, seen)) == cache_after(config, seen),
        cache_after(config, seen) != seen.cache ==> call_outcome(config, seen) == Ok::<
            u16,
            SidecarErrorView,
        >(launch_port(seen)),
{
    law_call_runs_to_its_outcome(config, seen);
    let opening = opening_requests(seen);
    let launch = launch_requests(config, seen);
    lemma_handle_untouched(seen.cache, opening);
    if reuses(seen) {
    } else if launch_outcome(config, seen) is Ok {
        law_successful_launch_in_full(config, seen);
        assert((opening + launch).last() == ActionView::WriteCache(launch_port(seen)));
    } else {
        lemma_handle_untouched(seen.cache, launch);
        lemma_handle_after_concat(seen.cache, opening, launch);
    }
}

/// Requests among which none is a `WriteCache` leave the handle as it was.
proof fn lemma_handle_untouched(before: Option<u16>, requests: Seq<ActionView>)
    requires
        forall|i: int| 0 <= i < requests.len() ==> !(#[trigger] requests[i] is WriteCache),
    ensures
        handle_after(before, requests) == before,
    decreases requests.len(),
{
    if requests.len() > 0 {
        lemma_handle_untouched(before, requests.drop_last());
    }
}

/// Carrying out `first` and then `second` is carrying out `second` on what
/// `first` left in the handle.
proof fn lemma_handle_after_concat(
    before: Option<u16>,
    first: Seq<ActionView>,
    second: Seq<ActionView>,
)
    ensures
        handle_after(before, first + second) == handle_after(
            handle_after(before, first),
            second,
        ),
    decreases second.len(),
{
    if second.len() == 0 {
        assert(first + second =~= first);
    } else {
        assert((first + second).drop_last() =~= first + second.drop_last());
        lemma_handle_after_concat(before, first, second.drop_last());
    }
}

} // verus!
