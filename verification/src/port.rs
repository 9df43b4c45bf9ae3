//! Choice of the port that a new sidecar is told to listen on.

use vstd::prelude::*;
use crate::error::{failure_view, SidecarError, SidecarErrorView};

verus! {

/// The first port of the scan window.
pub const PORT_RANGE_START: u16 = 8765;

/// The last port of the scan window; the window includes it.
pub const PORT_RANGE_END: u16 = 8799;

/// The port that is used when the whole window is taken.
pub const FALLBACK_PORT: u16 = 8765;

/// Whether `port` lies in the scan window.
pub open spec fn in_scan_window(port: u16) -> bool {
    PORT_RANGE_START <= port <= PORT_RANGE_END
}

/// The lowest port from `from` to the end of the window that is in `free`,
/// if there is one.
pub open spec fn first_free_from(free: Set<u16>, from: int) -> Option<u16>
    decreases PORT_RANGE_END + 1 - from,
{
    if from < PORT_RANGE_START || from > PORT_RANGE_END {
        None
    } else if free.contains(from as u16) {
        Some(from as u16)
    } else {
        first_free_from(free, from + 1)
    }
}

/// The lowest port of the scan window that is in `free`, if there is one.
pub open spec fn first_free_port(free: Set<u16>) -> Option<u16> {
    first_free_from(free, PORT_RANGE_START as int)
}

/// What a scan reports when `first` is the lowest free port of the window.
pub open spec fn scan_report(first: Option<u16>) -> Result<u16, SidecarErrorView> {
    match first {
        Some(port) => Ok(port),
        None => Err(SidecarErrorView::NoPortAvailable),
    }
}

/// `first_free_from` finds a free port of the window that no free port from
/// `from` on lies below, and finds none only if none of them is free.
pub proof fn lemma_first_free_from(free: Set<u16>, from: int)
    requires
        PORT_RANGE_START <= from <= PORT_RANGE_END + 1,
    ensures
        first_free_from(free, from) matches Some(port) ==> from <= port <= PORT_RANGE_END && free.contains(port)
            && forall|q: u16| from <= q < port ==> !free.contains(q),
        first_free_from(free, from) is None ==> forall|q: u16|
            from <= q <= PORT_RANGE_END ==> !free.contains(q),
    decreases PORT_RANGE_END + 1 - from,
{
    if from <= PORT_RANGE_END && !free.contains(from as u16) {
        lemma_first_free_from(free, from + 1);
    }
}

/// What a scan of the window may report, given what `bindable` can answer:
/// a port only if `bindable` accepted it and refused every lower port of
/// the window, and a failure only if `bindable` refused the whole window.
pub open spec fn scanned<F: Fn(u16) -> bool>(
    bindable: F,
    scan: Result<u16, SidecarErrorView>,
) -> bool {
    match scan {
        Ok(port) => in_scan_window(port) && call_ensures(bindable, (port,), true) && forall|
            q: u16,
        |
            PORT_RANGE_START <= q < port ==> #[trigger] call_ensures(bindable, (q,), false),
        Err(error) => error == SidecarErrorView::NoPortAvailable && forall|q: u16|
            in_scan_window(q) ==> #[trigger] call_ensures(bindable, (q,), false),
    }
}

/// Scans the window in ascending order and returns the first port that
/// `bindable` accepts. `bindable` is asked about each port at most once, in
/// order, and about none beyond the one it accepts.
pub fn find_available_port<F: Fn(u16) -> bool>(bindable: F) -> (scan: Result<u16, SidecarError>)
    requires
        forall|port: u16| in_scan_window(port) ==> #[trigger] call_requires(bindable, (port,)),
    ensures
        scanned(bindable, failure_view(scan)),
{
    let mut port: u16 = PORT_RANGE_START;
    while port <= PORT_RANGE_END
        invariant
            PORT_RANGE_START <= port <= PORT_RANGE_END + 1,
            forall|p: u16| in_scan_window(p) ==> #[trigger] call_requires(bindable, (p,)),
            forall|q: u16|
                PORT_RANGE_START <= q < port ==> #[trigger] call_ensures(bindable, (q,), false),
        decreases PORT_RANGE_END + 1 - port,
    {
        if bindable(port) {
            return Ok(port);
        }
        port = port + 1;
    }
    Err(SidecarError::NoPortAvailable)
}

/// Where the answer of `bindable` depends on the port alone, so that `free`
/// is the set of ports it accepts, a scan reports the lowest free port of the
/// window, and fails exactly when the window holds none.
pub proof fn law_scan_finds_first_free<F: Fn(u16) -> bool>(
    bindable: F,
    free: Set<u16>,
    scan: Result<u16, SidecarErrorView>,
)
    requires
        forall|q: u16, answer: bool|
            in_scan_window(q) && #[trigger] call_ensures(bindable, (q,), answer) ==> answer
                == free.contains(q),
        scanned(bindable, scan),
    ensures
        scan == scan_report(first_free_port(free)),
{
    lemma_first_free_from(free, PORT_RANGE_START as int);
    match first_free_port(free) {
        Some(first) => {
            match scan {
                Ok(port) => {
                    if first < port {
                        assert(call_ensures(bindable, (first,), false));
                    }
                },
                Err(_) => {
                    assert(call_ensures(bindable, (first,), false));
                },
            }
        },
        None => {},
    }
}

/// The port a launch uses after a scan: the one found, else the fallback.
pub open spec fn chosen_port(scan: Result<u16, SidecarErrorView>) -> u16 {
    match scan {
        Ok(port) => port,
        Err(_) => FALLBACK_PORT,
    }
}

/// Settles on the port for a launch: the scan's port, or the fallback when
/// the scan found none.
pub fn port_or_fallback(scan: &Result<u16, SidecarError>) -> (port: u16)
    ensures
        port == chosen_port(failure_view(*scan)),
{
    match scan {
        Ok(port) => *port,
        Err(_) => FALLBACK_PORT,
    }
}

} // verus!
