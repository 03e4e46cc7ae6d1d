use mpv_wallpaper::container::EnumReport;
use mpv_wallpaper::engine::{engine_start, engine_step, Action, EngineState, Event};
use mpv_wallpaper::error::WpError;
use mpv_wallpaper::geometry::{MonitorInfo, Placement, Rect};
use mpv_wallpaper::handles::{MonitorId, WindowHandle};

/// A mock operating-system layer: fixed replies for every query, plus a
/// record of every side effect the machine asked for.
struct MockOs {
    polls: Vec<isize>,
    poll_idx: usize,
    window_rect: Rect,
    rect_ok: bool,
    monitor: isize,
    monitor_bounds: Rect,
    bounds_ok: bool,
    move_ok: bool,
    apply_moves: bool,
    shell: isize,
    reports: Vec<EnumReport>,
    enum_idx: usize,
    reparent_ok: bool,
    sleeps: Vec<u64>,
    moves: Vec<(isize, Placement)>,
    activations: Vec<isize>,
    reparents: Vec<(isize, isize)>,
}

impl MockOs {
    fn happy(polls: Vec<isize>) -> MockOs {
        MockOs {
            polls,
            poll_idx: 0,
            window_rect: Rect::new(100, 100, 900, 700),
            rect_ok: true,
            monitor: 77,
            monitor_bounds: Rect::new(0, 0, 1920, 1080),
            bounds_ok: true,
            move_ok: true,
            apply_moves: true,
            shell: 500,
            reports: vec![
                EnumReport {
                    has_icon_view_child: false,
                    sibling_worker: WindowHandle::from_raw(0),
                },
                EnumReport {
                    has_icon_view_child: false,
                    sibling_worker: WindowHandle::from_raw(0),
                },
                EnumReport {
                    has_icon_view_child: true,
                    sibling_worker: WindowHandle::from_raw(600),
                },
            ],
            enum_idx: 0,
            reparent_ok: true,
            sleeps: Vec::new(),
            moves: Vec::new(),
            activations: Vec::new(),
            reparents: Vec::new(),
        }
    }

    fn next_poll(&mut self) -> WindowHandle {
        let raw = if self.poll_idx < self.polls.len() {
            self.polls[self.poll_idx]
        } else {
            0
        };
        self.poll_idx += 1;
        WindowHandle::from_raw(raw)
    }

    fn answer(&mut self, action: &Action) -> Option<Event> {
        match *action {
            Action::PollPlayerWindow => Some(Event::WindowFound {
                handle: self.next_poll(),
            }),
            Action::SleepThenPoll { millis } => {
                self.sleeps.push(millis);
                Some(Event::WindowFound {
                    handle: self.next_poll(),
                })
            }
            Action::QueryWindowRect { .. } => Some(Event::RectQueried {
                ok: self.rect_ok,
                rect: self.window_rect,
            }),
            Action::QueryMonitor { .. } => Some(Event::MonitorQueried {
                monitor: MonitorId::from_raw(self.monitor),
            }),
            Action::QueryMonitorBounds { monitor } => Some(Event::MonitorBoundsQueried {
                ok: self.bounds_ok,
                info: MonitorInfo {
                    monitor,
                    bounds: self.monitor_bounds,
                },
            }),
            Action::MoveWindow { window, placement } => {
                self.moves.push((window.raw, placement));
                if self.move_ok && self.apply_moves {
                    self.window_rect = Rect::new(
                        placement.x,
                        placement.y,
                        placement.x + placement.width,
                        placement.y + placement.height,
                    );
                }
                Some(Event::Moved { ok: self.move_ok })
            }
            Action::FindShellWindow => Some(Event::WindowFound {
                handle: WindowHandle::from_raw(self.shell),
            }),
            Action::ActivateContainer { shell } => {
                self.activations.push(shell.raw);
                Some(Event::Activated)
            }
            Action::EnumerateWindows | Action::ContinueEnumeration => {
                if self.enum_idx < self.reports.len() {
                    let report = self.reports[self.enum_idx];
                    self.enum_idx += 1;
                    Some(Event::WindowEnumerated { report })
                } else {
                    Some(Event::EnumerationDone)
                }
            }
            Action::ReparentWindow { window, parent } => {
                self.reparents.push((window.raw, parent.raw));
                Some(Event::Reparented {
                    ok: self.reparent_ok,
                })
            }
            Action::Finished | Action::Aborted { .. } => None,
        }
    }
}

/// Run the machine against the mock until it stops; return the final state
/// and the final action.
fn drive(os: &mut MockOs, max_attempts: u32, retry_delay_ms: u64) -> (EngineState, Action) {
    let (mut state, mut action) = engine_start(max_attempts, retry_delay_ms);
    for _ in 0..1000 {
        match os.answer(&action) {
            Some(event) => {
                let (next_state, next_action) = engine_step(state, event);
                state = next_state;
                action = next_action;
            }
            None => return (state, action),
        }
    }
    panic!("the machine did not stop");
}

#[test]
fn end_to_end_wallpaper_run() {
    // The player window appears after 2 failed polls; its rectangle is
    // (100,100,900,700); the nearest monitor reports bounds (0,0,1920,1080);
    // container discovery finds a qualifying window on the 3rd enumerated
    // window.
    let mut os = MockOs::happy(vec![0, 0, 321]);
    let (state, action) = drive(&mut os, 10, 4000);

    // The locator retried exactly twice before the third poll succeeded.
    assert_eq!(os.sleeps, vec![4000, 4000]);
    assert_eq!(os.poll_idx, 3);

    // The window was placed at (0,0) sized 1920x1080.
    assert_eq!(
        os.moves,
        vec![(
            321,
            Placement {
                x: 0,
                y: 0,
                width: 1920,
                height: 1080
            }
        )]
    );

    // The shell was asked to materialize the container, and the player
    // window was reparented to the discovered container handle.
    assert_eq!(os.activations, vec![500]);
    assert_eq!(os.reparents, vec![(321, 600)]);

    // The run succeeded.
    assert_eq!(action, Action::Finished);
    assert_eq!(
        state,
        EngineState::Done {
            window: WindowHandle::from_raw(321),
            container: WindowHandle::from_raw(600),
        }
    );
}

#[test]
fn run_fails_not_found_when_the_player_window_never_appears() {
    let mut os = MockOs::happy(vec![]);
    let (state, action) = drive(&mut os, 4, 100);
    assert_eq!(os.sleeps.len(), 3);
    assert_eq!(os.poll_idx, 4);
    assert_eq!(
        action,
        Action::Aborted {
            error: WpError::NotFound
        }
    );
    assert_eq!(
        state,
        EngineState::Failed {
            error: WpError::NotFound
        }
    );
    assert!(os.moves.is_empty());
    assert!(os.reparents.is_empty());
}

#[test]
fn run_fails_stale_window_when_the_rect_query_fails() {
    let mut os = MockOs::happy(vec![321]);
    os.rect_ok = false;
    let (_, action) = drive(&mut os, 10, 100);
    assert_eq!(
        action,
        Action::Aborted {
            error: WpError::StaleWindow
        }
    );
    assert!(os.moves.is_empty());
}

#[test]
fn run_fails_stale_window_when_the_monitor_bounds_query_fails() {
    let mut os = MockOs::happy(vec![321]);
    os.bounds_ok = false;
    let (_, action) = drive(&mut os, 10, 100);
    assert_eq!(
        action,
        Action::Aborted {
            error: WpError::StaleWindow
        }
    );
    assert!(os.moves.is_empty());
}

#[test]
fn run_fails_placement_failed_on_a_malformed_monitor_rectangle() {
    let mut os = MockOs::happy(vec![321]);
    os.monitor_bounds = Rect::new(100, 100, 0, 0);
    let (_, action) = drive(&mut os, 10, 100);
    assert_eq!(
        action,
        Action::Aborted {
            error: WpError::PlacementFailed
        }
    );
    assert!(os.moves.is_empty());
}

#[test]
fn run_fails_placement_failed_when_the_move_is_rejected() {
    let mut os = MockOs::happy(vec![321]);
    os.move_ok = false;
    let (_, action) = drive(&mut os, 10, 100);
    assert_eq!(
        action,
        Action::Aborted {
            error: WpError::PlacementFailed
        }
    );
    assert!(os.reparents.is_empty());
}

#[test]
fn run_fails_not_found_when_the_shell_window_is_missing() {
    let mut os = MockOs::happy(vec![321]);
    os.shell = 0;
    let (_, action) = drive(&mut os, 10, 100);
    assert_eq!(
        action,
        Action::Aborted {
            error: WpError::NotFound
        }
    );
    assert!(os.activations.is_empty());
    assert!(os.reparents.is_empty());
}

#[test]
fn run_fails_not_found_when_no_container_qualifies() {
    let mut os = MockOs::happy(vec![321]);
    for report in os.reports.iter_mut() {
        report.has_icon_view_child = false;
    }
    let (_, action) = drive(&mut os, 10, 100);
    assert_eq!(
        action,
        Action::Aborted {
            error: WpError::NotFound
        }
    );
    assert!(os.reparents.is_empty());
}

#[test]
fn reparent_on_an_invalid_handle_reports_an_error_and_does_not_panic() {
    // The operating system rejects the reparent call, as it does when the
    // handle has become invalid: the run ends with a reported error.
    let mut os = MockOs::happy(vec![321]);
    os.reparent_ok = false;
    let (state, action) = drive(&mut os, 10, 100);
    assert_eq!(os.reparents, vec![(321, 600)]);
    assert_eq!(
        action,
        Action::Aborted {
            error: WpError::ReparentFailed
        }
    );
    assert_eq!(
        state,
        EngineState::Failed {
            error: WpError::ReparentFailed
        }
    );
}

#[test]
fn reparent_step_on_invalid_reply_never_panics_even_from_a_bare_state() {
    let state = EngineState::AwaitReparent {
        window: WindowHandle::from_raw(321),
        container: WindowHandle::from_raw(600),
    };
    let (next, action) = engine_step(state, Event::Reparented { ok: false });
    assert_eq!(
        next,
        EngineState::Failed {
            error: WpError::ReparentFailed
        }
    );
    assert_eq!(
        action,
        Action::Aborted {
            error: WpError::ReparentFailed
        }
    );
}

/// Resolve geometry once, starting from the rectangle-query stage; return
/// the placement target the machine adopts.
fn resolve_once(os: &mut MockOs, window: WindowHandle) -> Rect {
    let mut state = EngineState::AwaitRect { window };
    let mut action = Action::QueryWindowRect { window };
    loop {
        match state {
            EngineState::AwaitMove { target, .. } => return target,
            _ => {}
        }
        let event = os.answer(&action).expect("resolution should not stop");
        let (next_state, next_action) = engine_step(state, event);
        state = next_state;
        action = next_action;
    }
}

#[test]
fn monitor_resolution_is_idempotent_for_an_unmoved_window() {
    let window = WindowHandle::from_raw(321);
    let mut os = MockOs::happy(vec![321]);
    os.apply_moves = false;
    let first = resolve_once(&mut os, window);
    let second = resolve_once(&mut os, window);
    assert_eq!(first, second);
    assert_eq!(first, Rect::new(0, 0, 1920, 1080));
}

#[test]
fn place_then_resolve_yields_the_requested_rectangle() {
    // The machine places the window over the monitor bounds; the mock
    // applies the placement exactly (zero non-client adjustment, as for a
    // borderless window). Reading the window rectangle back then yields the
    // requested rectangle, and resolving again keeps the same target.
    let window = WindowHandle::from_raw(321);
    let mut os = MockOs::happy(vec![321]);
    let requested = os.monitor_bounds;
    let (state, _) = drive(&mut os, 10, 100);
    assert!(matches!(state, EngineState::Done { .. }));
    assert_eq!(os.window_rect, requested);
    let resolved = resolve_once(&mut os, window);
    assert_eq!(resolved, requested);
}
