//! The wallpaper run as one state machine. The embedding program owns every
//! operating-system call; this machine owns every decision. Each step takes
//! the reply to the previous request (an [`Event`]) and answers with the next
//! request (an [`Action`]). The stages run strictly in order: locate the
//! player window, resolve its monitor, place the window over that monitor,
//! discover the desktop container, reparent the window into it. A failure at
//! any stage is fatal to the whole run.

use vstd::prelude::*;
use crate::container::ContainerSearch;
use crate::container::EnumReport;
use crate::error::WpError;
use crate::geometry::MonitorInfo;
use crate::geometry::Placement;
use crate::geometry::Point;
use crate::geometry::Rect;
use crate::handles::MonitorId;
use crate::handles::WindowHandle;
use crate::locator::LocateStep;
use crate::locator::Locator;

verus! {

/// The machine's state: which stage the run is in and what that stage has
/// established so far.
#[derive(Clone, Copy, PartialEq, Eq, Structural, Debug)]
pub enum EngineState {
    /// Polling for the player's window by class name.
    Locating { locator: Locator },
    /// Waiting for the located window's current screen rectangle.
    AwaitRect { window: WindowHandle },
    /// Waiting to learn which monitor is nearest the window's top-left corner.
    AwaitMonitor { window: WindowHandle, point: Point },
    /// Waiting for that monitor's full pixel rectangle.
    AwaitMonitorBounds { window: WindowHandle, monitor: MonitorId },
    /// Waiting for the move/resize directive to be carried out.
    AwaitMove { window: WindowHandle, target: Rect },
    /// Waiting for the desktop shell's primary window to be looked up.
    AwaitShell { window: WindowHandle },
    /// Waiting for the container-activation messages to be sent.
    AwaitActivate { window: WindowHandle, shell: WindowHandle },
    /// Consuming top-level window reports, first qualifying match wins.
    Enumerating { window: WindowHandle, search: ContainerSearch },
    /// Waiting for the reparent call to be carried out.
    AwaitReparent { window: WindowHandle, container: WindowHandle },
    /// The wallpaper is in place.
    Done { window: WindowHandle, container: WindowHandle },
    /// The run failed; nothing further will be requested.
    Failed { error: WpError },
}

/// A request the machine makes of the embedding program.
#[derive(Clone, Copy, PartialEq, Eq, Structural, Debug)]
pub enum Action {
    /// Look the player window up by its class name, right now.
    PollPlayerWindow,
    /// Sleep this many milliseconds, then look the player window up again.
    SleepThenPoll { millis: u64 },
    /// Read this window's current screen rectangle.
    QueryWindowRect { window: WindowHandle },
    /// Ask which monitor is nearest this point.
    QueryMonitor { point: Point },
    /// Read this monitor's full pixel rectangle.
    QueryMonitorBounds { monitor: MonitorId },
    /// Move and resize this window, borderless, to this position and size.
    MoveWindow { window: WindowHandle, placement: Placement },
    /// Look the desktop shell's primary window up by its class name.
    FindShellWindow,
    /// Send the shell the fixed two-message container-activation sequence.
    ActivateContainer { shell: WindowHandle },
    /// Enumerate all top-level windows, reporting each one.
    EnumerateWindows,
    /// Keep enumerating: report the next top-level window.
    ContinueEnumeration,
    /// Reassign the window's parent to the discovered container.
    ReparentWindow { window: WindowHandle, parent: WindowHandle },
    /// The run succeeded; nothing further is requested.
    Finished,
    /// The run failed with this error; nothing further is requested.
    Aborted { error: WpError },
}

/// A reply from the embedding program to the machine's latest request.
#[derive(Clone, Copy, PartialEq, Eq, Structural, Debug)]
pub enum Event {
    /// The answer to a window lookup: the handle found, or the null handle.
    WindowFound { handle: WindowHandle },
    /// The answer to a window-rectangle query; `ok` is false when the handle
    /// was no longer valid.
    RectQueried { ok: bool, rect: Rect },
    /// The answer to a point-to-monitor query.
    MonitorQueried { monitor: MonitorId },
    /// The answer to a monitor-bounds query; `ok` is false when the monitor
    /// handle was no longer valid.
    MonitorBoundsQueried { ok: bool, info: MonitorInfo },
    /// Whether the move/resize directive was accepted.
    Moved { ok: bool },
    /// The activation sequence was sent (its replies carry no information).
    Activated,
    /// One top-level window was enumerated, with what discovery reads of it.
    WindowEnumerated { report: EnumReport },
    /// Enumeration visited every top-level window.
    EnumerationDone,
    /// Whether the reparent call was accepted.
    Reparented { ok: bool },
}

impl EngineState {
    /// Internal consistency: handles established by earlier stages are
    /// valid, the locator respects its budget, the placement target is a
    /// well-formed rectangle, and whatever discovery holds is valid.
    pub open spec fn wf(&self) -> bool {
        match *self {
            EngineState::Locating { locator } => locator.wf(),
            EngineState::AwaitRect { window } => window.spec_is_valid(),
            EngineState::AwaitMonitor { window, point } => window.spec_is_valid(),
            EngineState::AwaitMonitorBounds { window, monitor } => window.spec_is_valid(),
            EngineState::AwaitMove { window, target } => window.spec_is_valid()
                && target.well_formed(),
            EngineState::AwaitShell { window } => window.spec_is_valid(),
            EngineState::AwaitActivate { window, shell } => window.spec_is_valid()
                && shell.spec_is_valid(),
            EngineState::Enumerating { window, search } => window.spec_is_valid() && search.wf(),
            EngineState::AwaitReparent { window, container } => window.spec_is_valid()
                && container.spec_is_valid(),
            EngineState::Done { window, container } => window.spec_is_valid()
                && container.spec_is_valid(),
            EngineState::Failed { error } => true,
        }
    }

    /// The request a state is waiting to have answered. A step that receives
    /// a reply of the wrong shape re-issues this request unchanged.
    pub open spec fn spec_pending(&self) -> Action {
        match *self {
            EngineState::Locating { locator } => Action::PollPlayerWindow,
            EngineState::AwaitRect { window } => Action::QueryWindowRect { window },
            EngineState::AwaitMonitor { window, point } => Action::QueryMonitor { point },
            EngineState::AwaitMonitorBounds { window, monitor } => Action::QueryMonitorBounds {
                monitor,
            },
            EngineState::AwaitMove { window, target } => Action::MoveWindow {
                window,
                placement: target.spec_placement(),
            },
            EngineState::AwaitShell { window } => Action::FindShellWindow,
            EngineState::AwaitActivate { window, shell } => Action::ActivateContainer { shell },
            EngineState::Enumerating { window, search } => Action::ContinueEnumeration,
            EngineState::AwaitReparent { window, container } => Action::ReparentWindow {
                window,
                parent: container,
            },
            EngineState::Done { window, container } => Action::Finished,
            EngineState::Failed { error } => Action::Aborted { error },
        }
    }

    /// The whole transition function, as a value: what one reply does to the
    /// state and what the machine requests next.
    pub open spec fn spec_step(self, event: Event) -> (EngineState, Action) {
        match (self, event) {
            (EngineState::Locating { locator }, Event::WindowFound { handle }) => {
                let (loc, step) = locator.spec_on_poll(handle);
                match step {
                    LocateStep::Found(window) => (
                        EngineState::AwaitRect { window },
                        Action::QueryWindowRect { window },
                    ),
                    LocateStep::RetryAfter(millis) => (
                        EngineState::Locating { locator: loc },
                        Action::SleepThenPoll { millis },
                    ),
                    LocateStep::GiveUp => (
                        EngineState::Failed { error: WpError::NotFound },
                        Action::Aborted { error: WpError::NotFound },
                    ),
                }
            },
            (EngineState::AwaitRect { window }, Event::RectQueried { ok, rect }) => {
                if ok {
                    let point = Point { x: rect.left, y: rect.top };
                    (EngineState::AwaitMonitor { window, point }, Action::QueryMonitor { point })
                } else {
                    (
                        EngineState::Failed { error: WpError::StaleWindow },
                        Action::Aborted { error: WpError::StaleWindow },
                    )
                }
            },
            (EngineState::AwaitMonitor { window, point }, Event::MonitorQueried { monitor }) => (
                EngineState::AwaitMonitorBounds { window, monitor },
                Action::QueryMonitorBounds { monitor },
            ),
            (
                EngineState::AwaitMonitorBounds { window, monitor },
                Event::MonitorBoundsQueried { ok, info },
            ) => {
                let bounds = info.bounds;
                if !ok {
                    (
                        EngineState::Failed { error: WpError::StaleWindow },
                        Action::Aborted { error: WpError::StaleWindow },
                    )
                } else if bounds.well_formed() {
                    (
                        EngineState::AwaitMove { window, target: bounds },
                        Action::MoveWindow { window, placement: bounds.spec_placement() },
                    )
                } else {
                    (
                        EngineState::Failed { error: WpError::PlacementFailed },
                        Action::Aborted { error: WpError::PlacementFailed },
                    )
                }
            },
            (EngineState::AwaitMove { window, target }, Event::Moved { ok }) => {
                if ok {
                    (EngineState::AwaitShell { window }, Action::FindShellWindow)
                } else {
                    (
                        EngineState::Failed { error: WpError::PlacementFailed },
                        Action::Aborted { error: WpError::PlacementFailed },
                    )
                }
            },
            (EngineState::AwaitShell { window }, Event::WindowFound { handle }) => {
                if handle.spec_is_valid() {
                    (
                        EngineState::AwaitActivate { window, shell: handle },
                        Action::ActivateContainer { shell: handle },
                    )
                } else {
                    (
                        EngineState::Failed { error: WpError::NotFound },
                        Action::Aborted { error: WpError::NotFound },
                    )
                }
            },
            (EngineState::AwaitActivate { window, shell }, Event::Activated) => (
                EngineState::Enumerating { window, search: (ContainerSearch { found: None }) },
                Action::EnumerateWindows,
            ),
            (EngineState::Enumerating { window, search }, Event::WindowEnumerated { report }) => (
                EngineState::Enumerating { window, search: search.spec_on_window(report) },
                Action::ContinueEnumeration,
            ),
            (EngineState::Enumerating { window, search }, Event::EnumerationDone) => {
                match search.found {
                    Some(container) => (
                        EngineState::AwaitReparent { window, container },
                        Action::ReparentWindow { window, parent: container },
                    ),
                    None => (
                        EngineState::Failed { error: WpError::NotFound },
                        Action::Aborted { error: WpError::NotFound },
                    ),
                }
            },
            (EngineState::AwaitReparent { window, container }, Event::Reparented { ok }) => {
                if ok {
                    (
                        EngineState::Done { window, container },
                        Action::Finished,
                    )
                } else {
                    (
                        EngineState::Failed { error: WpError::ReparentFailed },
                        Action::Aborted { error: WpError::ReparentFailed },
                    )
                }
            },
            _ => (self, self.spec_pending()),
        }
    }
}

/// Start a run: a fresh machine about to make its first poll for the player
/// window, with the given retry budget and backoff.
pub fn engine_start(max_attempts: u32, retry_delay_ms: u64) -> (r: (EngineState, Action))
    ensures
        r.0 == (EngineState::Locating {
            locator: (Locator { max_attempts, retry_delay_ms, attempts: 0 }),
        }),
        r.0.wf(),
        r.1 == Action::PollPlayerWindow,
{
    let locator = Locator::new(max_attempts, retry_delay_ms);
    (EngineState::Locating { locator }, Action::PollPlayerWindow)
}

/// Take one step: consume the reply to the previous request and produce the
/// successor state and the next request. The executable machine does exactly
/// what the transition function says, and keeps the state well formed.
pub fn engine_step(s: EngineState, event: Event) -> (r: (EngineState, Action))
    requires
        s.wf(),
    ensures
        r == s.spec_step(event),
        r.0.wf(),
{
    match (s, event) {
        (EngineState::Locating { locator }, Event::WindowFound { handle }) => {
            let mut loc = locator;
            let step = loc.on_poll(handle);
            match step {
                LocateStep::Found(window) => (
                    EngineState::AwaitRect { window },
                    Action::QueryWindowRect { window },
                ),
                LocateStep::RetryAfter(millis) => (
                    EngineState::Locating { locator: loc },
                    Action::SleepThenPoll { millis },
                ),
                LocateStep::GiveUp => (
                    EngineState::Failed { error: WpError::NotFound },
                    Action::Aborted { error: WpError::NotFound },
                ),
            }
        },
        (EngineState::AwaitRect { window }, Event::RectQueried { ok, rect }) => {
            if ok {
                let point = rect.top_left();
                (EngineState::AwaitMonitor { window, point }, Action::QueryMonitor { point })
            } else {
                (
                    EngineState::Failed { error: WpError::StaleWindow },
                    Action::Aborted { error: WpError::StaleWindow },
                )
            }
        },
        (EngineState::AwaitMonitor { window, point }, Event::MonitorQueried { monitor }) => (
            EngineState::AwaitMonitorBounds { window, monitor },
            Action::QueryMonitorBounds { monitor },
        ),
        (
            EngineState::AwaitMonitorBounds { window, monitor },
            Event::MonitorBoundsQueried { ok, info },
        ) => {
            let bounds = info.bounds;
            if !ok {
                (
                    EngineState::Failed { error: WpError::StaleWindow },
                    Action::Aborted { error: WpError::StaleWindow },
                )
            } else if bounds.is_well_formed() {
                (
                    EngineState::AwaitMove { window, target: bounds },
                    Action::MoveWindow { window, placement: bounds.to_placement() },
                )
            } else {
                (
                    EngineState::Failed { error: WpError::PlacementFailed },
                    Action::Aborted { error: WpError::PlacementFailed },
                )
            }
        },
        (EngineState::AwaitMove { window, target }, Event::Moved { ok }) => {
            if ok {
                (EngineState::AwaitShell { window }, Action::FindShellWindow)
            } else {
                (
                    EngineState::Failed { error: WpError::PlacementFailed },
                    Action::Aborted { error: WpError::PlacementFailed },
                )
            }
        },
        (EngineState::AwaitShell { window }, Event::WindowFound { handle }) => {
            if handle.is_valid() {
                (
                    EngineState::AwaitActivate { window, shell: handle },
                    Action::ActivateContainer { shell: handle },
                )
            } else {
                (
                    EngineState::Failed { error: WpError::NotFound },
                    Action::Aborted { error: WpError::NotFound },
                )
            }
        },
        (EngineState::AwaitActivate { window, shell }, Event::Activated) => (
            EngineState::Enumerating { window, search: ContainerSearch::new() },
            Action::EnumerateWindows,
        ),
        (EngineState::Enumerating { window, search }, Event::WindowEnumerated { report }) => {
            let mut updated = search;
            let _proceed = updated.on_window(report);
            (
                EngineState::Enumerating { window, search: updated },
                Action::ContinueEnumeration,
            )
        },
        (EngineState::Enumerating { window, search }, Event::EnumerationDone) => {
            match search.found {
                Some(container) => (
                    EngineState::AwaitReparent { window, container },
                    Action::ReparentWindow { window, parent: container },
                ),
                None => (
                    EngineState::Failed { error: WpError::NotFound },
                    Action::Aborted { error: WpError::NotFound },
                ),
            }
        },
        (EngineState::AwaitReparent { window, container }, Event::Reparented { ok }) => {
            if ok {
                (
                    EngineState::Done { window, container },
                    Action::Finished,
                )
            } else {
                (
                    EngineState::Failed { error: WpError::ReparentFailed },
                    Action::Aborted { error: WpError::ReparentFailed },
                )
            }
        },
        (other, _) => {
            let pending = engine_pending(other);
            (other, pending)
        },
    }
}

/// The request a well-formed state is waiting to have answered.
pub fn engine_pending(s: EngineState) -> (a: Action)
    requires
        s.wf(),
    ensures
        a == s.spec_pending(),
{
    match s {
        EngineState::Locating { locator } => Action::PollPlayerWindow,
        EngineState::AwaitRect { window } => Action::QueryWindowRect { window },
        EngineState::AwaitMonitor { window, point } => Action::QueryMonitor { point },
        EngineState::AwaitMonitorBounds { window, monitor } => Action::QueryMonitorBounds {
            monitor,
        },
        EngineState::AwaitMove { window, target } => Action::MoveWindow {
            window,
            placement: target.to_placement(),
        },
        EngineState::AwaitShell { window } => Action::FindShellWindow,
        EngineState::AwaitActivate { window, shell } => Action::ActivateContainer { shell },
        EngineState::Enumerating { window, search } => Action::ContinueEnumeration,
        EngineState::AwaitReparent { window, container } => Action::ReparentWindow {
            window,
            parent: container,
        },
        EngineState::Done { window, container } => Action::Finished,
        EngineState::Failed { error } => Action::Aborted { error },
    }
}

/// The machine run over a whole sequence of replies, as a value.
pub open spec fn run_spec(s: EngineState, events: Seq<Event>) -> EngineState
    decreases events.len(),
{
    if events.len() == 0 {
        s
    } else {
        run_spec(s.spec_step(events[0]).0, events.drop_first())
    }
}

/// One step keeps the state well formed.
pub proof fn lemma_step_preserves_wf(s: EngineState, event: Event)
    requires
        s.wf(),
    ensures
        s.spec_step(event).0.wf(),
{
}

/// A whole run from a well-formed state ends well formed.
pub proof fn lemma_run_preserves_wf(s: EngineState, events: Seq<Event>)
    requires
        s.wf(),
    ensures
        run_spec(s, events).wf(),
    decreases events.len(),
{
    if events.len() > 0 {
        lemma_step_preserves_wf(s, events[0]);
        lemma_run_preserves_wf(s.spec_step(events[0]).0, events.drop_first());
    }
}

/// A run of polls that never observe the player's window.
pub open spec fn invalid_polls(n: nat) -> Seq<Event> {
    Seq::new(n, |i: int| Event::WindowFound { handle: (WindowHandle { raw: 0 }) })
}

/// A failed run stays failed: no later reply revives it.
pub proof fn lemma_failed_absorbing(error: WpError, events: Seq<Event>)
    ensures
        run_spec((EngineState::Failed { error }), events) == (EngineState::Failed { error }),
    decreases events.len(),
{
    if events.len() > 0 {
        lemma_failed_absorbing(error, events.drop_first());
    }
}

/// What a run of failed polls does to a machine that is locating: while the
/// budget lasts the machine only counts the failures, and the poll that
/// exhausts the budget fails the run with `NotFound`.
pub proof fn lemma_locating_run(loc: Locator, n: nat)
    requires
        loc.wf(),
        n + loc.attempts <= loc.max_attempts,
    ensures
        n + loc.attempts < loc.max_attempts ==> run_spec(
            (EngineState::Locating { locator: loc }),
            invalid_polls(n),
        ) == (EngineState::Locating {
            locator: (Locator { attempts: (loc.attempts + n) as u32, ..loc }),
        }),
        n + loc.attempts == loc.max_attempts && n >= 1 ==> run_spec(
            (EngineState::Locating { locator: loc }),
            invalid_polls(n),
        ) == (EngineState::Failed { error: WpError::NotFound }),
    decreases n,
{
    if n == 0 {
        assert((Locator { attempts: (loc.attempts + 0) as u32, ..loc }) == loc);
    } else {
        let events = invalid_polls(n);
        let first = events[0];
        let rest = events.drop_first();
        assert(rest =~= invalid_polls((n - 1) as nat));
        let stepped = EngineState::Locating { locator: loc }.spec_step(first).0;
        if loc.attempts + 1 >= loc.max_attempts {
            assert(stepped == (EngineState::Failed { error: WpError::NotFound }));
            lemma_failed_absorbing(WpError::NotFound, rest);
        } else {
            let loc2 = Locator { attempts: (loc.attempts + 1) as u32, ..loc };
            assert(stepped == (EngineState::Locating { locator: loc2 }));
            lemma_locating_run(loc2, (n - 1) as nat);
        }
    }
}

/// The locator terminates: a freshly started machine whose polls never
/// observe the player's window is still polling - having consumed exactly n
/// failed polls - after any n short of its budget, and the poll that
/// exhausts the budget ends the run as failed with `NotFound`. It neither
/// hangs nor polls past `max_attempts`.
pub proof fn lemma_engine_locator_terminates(max_attempts: u32, retry_delay_ms: u64, n: nat)
    requires
        1 <= max_attempts,
        n <= max_attempts,
    ensures
        n < max_attempts ==> run_spec(
            (EngineState::Locating {
                locator: (Locator { max_attempts, retry_delay_ms, attempts: 0 }),
            }),
            invalid_polls(n),
        ) == (EngineState::Locating {
            locator: (Locator { max_attempts, retry_delay_ms, attempts: n as u32 }),
        }),
        n == max_attempts ==> run_spec(
            (EngineState::Locating {
                locator: (Locator { max_attempts, retry_delay_ms, attempts: 0 }),
            }),
            invalid_polls(n),
        ) == (EngineState::Failed { error: WpError::NotFound }),
{
    let loc = Locator { max_attempts, retry_delay_ms, attempts: 0 };
    lemma_locating_run(loc, n);
}

/// The three replies one geometry resolution consumes: the window's
/// rectangle, the nearest monitor, and that monitor's bounds.
pub open spec fn resolve_events(rect: Rect, monitor: MonitorId, bounds: Rect) -> Seq<Event> {
    seq![
        (Event::RectQueried { ok: true, rect }),
        (Event::MonitorQueried { monitor }),
        (Event::MonitorBoundsQueried { ok: true, info: (MonitorInfo { monitor, bounds }) }),
    ]
}

/// Where one geometry resolution leaves the machine, given the replies it
/// would consume.
pub open spec fn resolve_run(
    window: WindowHandle,
    rect: Rect,
    monitor: MonitorId,
    bounds: Rect,
) -> EngineState {
    run_spec((EngineState::AwaitRect { window }), resolve_events(rect, monitor, bounds))
}

/// Geometry resolution, characterized end to end: from the moment the
/// window's rectangle is read, the machine derives the representative point
/// from the top-left corner as (x = left, y = top), asks which monitor is
/// nearest that point, asks for that monitor's bounds, and adopts those
/// bounds - not the window's own rectangle - as the placement target.
pub proof fn lemma_resolver_characterized(
    window: WindowHandle,
    rect: Rect,
    monitor: MonitorId,
    bounds: Rect,
)
    requires
        bounds.well_formed(),
    ensures
        resolve_run(window, rect, monitor, bounds) == (EngineState::AwaitMove {
            window,
            target: bounds,
        }),
        ({
            let first = EngineState::AwaitRect { window };
            first.spec_step(Event::RectQueried { ok: true, rect }).1 == (Action::QueryMonitor {
                point: (Point { x: rect.left, y: rect.top }),
            })
        }),
{
    let events = resolve_events(rect, monitor, bounds);
    let s0 = EngineState::AwaitRect { window };
    let s1 = s0.spec_step(events[0]).0;
    let s2 = s1.spec_step(events[1]).0;
    let s3 = s2.spec_step(events[2]).0;
    let e1 = events.drop_first();
    let e2 = e1.drop_first();
    let e3 = e2.drop_first();
    assert(e1 =~= seq![events[1], events[2]]);
    assert(e2 =~= seq![events[2]]);
    assert(e3 =~= Seq::<Event>::empty());
    assert(run_spec(s0, events) == run_spec(s1, e1));
    assert(run_spec(s1, e1) == run_spec(s2, e2));
    assert(run_spec(s2, e2) == run_spec(s3, e3));
    assert(run_spec(s3, e3) == s3);
}

/// Monitor resolution is idempotent: resolving geometry twice for the same
/// unmoved window - so the window rectangle read and the monitor replies are
/// the same both times - leaves the machine with the same target rectangle
/// both times.
pub proof fn lemma_resolution_idempotent(
    window: WindowHandle,
    rect1: Rect,
    monitor1: MonitorId,
    bounds1: Rect,
    rect2: Rect,
    monitor2: MonitorId,
    bounds2: Rect,
)
    requires
        bounds1.well_formed(),
        rect1 == rect2,
        monitor1 == monitor2,
        bounds1 == bounds2,
    ensures
        resolve_run(window, rect1, monitor1, bounds1) == resolve_run(
            window,
            rect2,
            monitor2,
            bounds2,
        ),
        resolve_run(window, rect1, monitor1, bounds1) == (EngineState::AwaitMove {
            window,
            target: bounds1,
        }),
{
    lemma_resolver_characterized(window, rect1, monitor1, bounds1);
}

/// The placement the machine issues reproduces the requested rectangle: on
/// learning the monitor's bounds, the machine asks for a move to the
/// bounds' own top-left corner with width and height taken as corner
/// differences, and applying that placement exactly - the zero non-client
/// adjustment of a borderless window - yields a window rectangle equal to
/// the bounds. Reading the window's rectangle back after such a move
/// therefore returns the rectangle that was requested.
pub proof fn lemma_place_matches_request(window: WindowHandle, monitor: MonitorId, bounds: Rect)
    requires
        bounds.well_formed(),
    ensures
        ({
            let before = EngineState::AwaitMonitorBounds { window, monitor };
            let info = MonitorInfo { monitor, bounds };
            let after = before.spec_step(Event::MonitorBoundsQueried { ok: true, info });
            after.1 == (Action::MoveWindow { window, placement: bounds.spec_placement() })
                && bounds.spec_placement().spec_resulting_rect() == bounds
        }),
{
    crate::geometry::lemma_placement_round_trip(bounds);
}

/// A rejected reparent call - as the operating system answers when the
/// target handle has become invalid - ends the run with a reported
/// `ReparentFailed` error and a stop request: the machine never panics and
/// never retries the operation.
pub proof fn lemma_reparent_failure_reported(window: WindowHandle, container: WindowHandle)
    ensures
        ({
            let before = EngineState::AwaitReparent { window, container };
            let after = before.spec_step(Event::Reparented { ok: false });
            after.0 == (EngineState::Failed { error: WpError::ReparentFailed })
                && after.1 == (Action::Aborted { error: WpError::ReparentFailed })
        }),
{
}

} // verus!
