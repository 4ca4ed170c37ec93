use topbar::controller::{
    Call, GeometryCommand, GeometryStage, Outcome, Reply, Request, Step, ToggleStage,
};
use topbar::error::ControllerError;
use topbar::geometry::{AppliedGeometry, MonitorDescriptor, UnitMode};
use topbar::scale::ScaleFactor;

fn full_hd(scale: f64) -> MonitorDescriptor {
    MonitorDescriptor::new(1920, 1080, ScaleFactor::from_bits(scale.to_bits()).unwrap())
}

/// Hands `replies` to `call` in order and returns the requests the call
/// made and what it came to. Panics if replies are left over.
fn drive(call: Call, replies: Vec<Reply>) -> (Vec<Request>, Step) {
    let mut requests = vec![call.request()];
    let mut step = Step::Pending(call);
    for reply in replies {
        let call = match step {
            Step::Pending(call) => call,
            Step::Finished(_) => panic!("a reply is left over"),
        };
        step = call.advance(reply);
        if let Step::Pending(next) = &step {
            requests.push(next.request());
        }
    }
    (requests, step)
}

#[test]
fn setup_applies_size_then_position() {
    let call = Call::setup_topbar_window(48, UnitMode::Logical);
    assert_eq!(call.window_name(), "topbar");
    let (requests, step) = drive(
        call,
        vec![Reply::WindowFound, Reply::MonitorAvailable(full_hd(1.0)), Reply::Done, Reply::Done],
    );
    assert_eq!(
        requests,
        vec![
            Request::FindWindow,
            Request::QueryMonitor,
            Request::SetSize { width: 1152, height: 48 },
            Request::SetPosition { x: 384, y: 0 },
        ]
    );
    let applied = AppliedGeometry { x: 384, y: 0, width: 1152, height: 48 };
    assert_eq!(step, Step::Finished(Ok(Outcome::GeometryApplied(applied))));
}

#[test]
fn setup_in_logical_pixels_on_a_scaled_monitor() {
    let monitor = MonitorDescriptor::new(3840, 2160, ScaleFactor::from_bits(2.0f64.to_bits()).unwrap());
    let (requests, _) = drive(
        Call::setup_topbar_window(48, UnitMode::Logical),
        vec![Reply::WindowFound, Reply::MonitorAvailable(monitor), Reply::Done],
    );
    assert_eq!(requests[2], Request::SetSize { width: 1152, height: 48 });
    assert_eq!(requests[3], Request::SetPosition { x: 384, y: 0 });
    let (requests, _) = drive(
        Call::setup_topbar_window(48, UnitMode::Physical),
        vec![Reply::WindowFound, Reply::MonitorAvailable(monitor), Reply::Done],
    );
    assert_eq!(requests[2], Request::SetSize { width: 2304, height: 48 });
    assert_eq!(requests[3], Request::SetPosition { x: 768, y: 0 });
}

#[test]
fn resize_applies_size_then_position() {
    let call = Call::resize_topbar_window(800, 60, UnitMode::Physical);
    assert_eq!(call.window_name(), "topbar");
    let (requests, step) = drive(
        call,
        vec![Reply::WindowFound, Reply::MonitorAvailable(full_hd(1.25)), Reply::Done, Reply::Done],
    );
    assert_eq!(
        requests,
        vec![
            Request::FindWindow,
            Request::QueryMonitor,
            Request::SetSize { width: 800, height: 60 },
            Request::SetPosition { x: 560, y: 0 },
        ]
    );
    let applied = AppliedGeometry { x: 560, y: 0, width: 800, height: 60 };
    assert_eq!(step, Step::Finished(Ok(Outcome::GeometryApplied(applied))));
}

#[test]
fn resize_wider_than_the_screen_is_applied_as_asked() {
    let (requests, step) = drive(
        Call::resize_topbar_window(2000, 60, UnitMode::Logical),
        vec![Reply::WindowFound, Reply::MonitorAvailable(full_hd(1.0)), Reply::Done, Reply::Done],
    );
    assert_eq!(requests[2], Request::SetSize { width: 2000, height: 60 });
    assert_eq!(requests[3], Request::SetPosition { x: -40, y: 0 });
    let applied = AppliedGeometry { x: -40, y: 0, width: 2000, height: 60 };
    assert_eq!(step, Step::Finished(Ok(Outcome::GeometryApplied(applied))));
}

#[test]
fn missing_window_ends_every_call() {
    let calls = vec![
        Call::setup_topbar_window(48, UnitMode::Logical),
        Call::resize_topbar_window(800, 60, UnitMode::Physical),
        Call::toggle_window(String::from("main")),
        Call::toggle_window(String::new()),
    ];
    for call in calls {
        let (requests, step) = drive(call, vec![Reply::WindowMissing]);
        assert_eq!(requests, vec![Request::FindWindow]);
        assert_eq!(step, Step::Finished(Err(ControllerError::WindowNotFound)));
    }
}

#[test]
fn no_monitor_skips_the_geometry() {
    let calls = vec![
        Call::setup_topbar_window(48, UnitMode::Logical),
        Call::setup_topbar_window(48, UnitMode::Physical),
        Call::resize_topbar_window(800, 60, UnitMode::Logical),
    ];
    for call in calls {
        let (requests, step) = drive(call, vec![Reply::WindowFound, Reply::MonitorUnavailable]);
        assert_eq!(requests, vec![Request::FindWindow, Request::QueryMonitor]);
        assert_eq!(step, Step::Finished(Ok(Outcome::GeometrySkipped)));
    }
}

#[test]
fn failed_size_ends_the_call_before_the_position() {
    let (requests, step) = drive(
        Call::setup_topbar_window(48, UnitMode::Logical),
        vec![
            Reply::WindowFound,
            Reply::MonitorAvailable(full_hd(1.0)),
            Reply::Failed(String::from("size refused")),
        ],
    );
    assert_eq!(requests.len(), 3);
    assert_eq!(requests[2], Request::SetSize { width: 1152, height: 48 });
    let error = ControllerError::GeometryApplyError(String::from("size refused"));
    assert_eq!(step, Step::Finished(Err(error)));
}

#[test]
fn failed_position_ends_the_call_and_keeps_the_size() {
    let (requests, step) = drive(
        Call::resize_topbar_window(800, 60, UnitMode::Logical),
        vec![
            Reply::WindowFound,
            Reply::MonitorAvailable(full_hd(1.0)),
            Reply::Done,
            Reply::Failed(String::from("position refused")),
        ],
    );
    assert_eq!(
        requests,
        vec![
            Request::FindWindow,
            Request::QueryMonitor,
            Request::SetSize { width: 800, height: 60 },
            Request::SetPosition { x: 560, y: 0 },
        ]
    );
    let error = ControllerError::GeometryApplyError(String::from("position refused"));
    assert_eq!(step, Step::Finished(Err(error)));
}

#[test]
fn toggle_hides_a_visible_window() {
    let call = Call::toggle_window(String::from("main"));
    assert_eq!(call.window_name(), "main");
    let (requests, step) = drive(call, vec![Reply::WindowFound, Reply::Visible, Reply::Done]);
    assert_eq!(requests, vec![Request::FindWindow, Request::QueryVisibility, Request::Hide]);
    assert_eq!(step, Step::Finished(Ok(Outcome::VisibilityChanged { visible: false })));
}

#[test]
fn toggle_shows_and_focuses_a_hidden_window() {
    let (requests, step) = drive(
        Call::toggle_window(String::from("topbar")),
        vec![Reply::WindowFound, Reply::Hidden, Reply::Done, Reply::Done],
    );
    assert_eq!(
        requests,
        vec![Request::FindWindow, Request::QueryVisibility, Request::Show, Request::SetFocus]
    );
    assert_eq!(step, Step::Finished(Ok(Outcome::VisibilityChanged { visible: true })));
}

#[test]
fn toggle_fails_when_visibility_cannot_be_read() {
    let (requests, step) = drive(
        Call::toggle_window(String::from("main")),
        vec![Reply::WindowFound, Reply::Failed(String::from("no answer"))],
    );
    assert_eq!(requests, vec![Request::FindWindow, Request::QueryVisibility]);
    let error = ControllerError::VisibilityReadError(String::from("no answer"));
    assert_eq!(step, Step::Finished(Err(error)));
}

#[test]
fn toggle_fails_when_hide_or_show_fails() {
    let (requests, step) = drive(
        Call::toggle_window(String::from("main")),
        vec![Reply::WindowFound, Reply::Visible, Reply::Failed(String::from("cannot hide"))],
    );
    assert_eq!(requests, vec![Request::FindWindow, Request::QueryVisibility, Request::Hide]);
    let error = ControllerError::VisibilityChangeError(String::from("cannot hide"));
    assert_eq!(step, Step::Finished(Err(error)));

    let (requests, step) = drive(
        Call::toggle_window(String::from("main")),
        vec![Reply::WindowFound, Reply::Hidden, Reply::Failed(String::from("cannot show"))],
    );
    assert_eq!(requests, vec![Request::FindWindow, Request::QueryVisibility, Request::Show]);
    let error = ControllerError::VisibilityChangeError(String::from("cannot show"));
    assert_eq!(step, Step::Finished(Err(error)));
}

#[test]
fn toggle_fails_when_focus_is_not_granted_after_the_show() {
    let (requests, step) = drive(
        Call::toggle_window(String::from("main")),
        vec![
            Reply::WindowFound,
            Reply::Hidden,
            Reply::Done,
            Reply::Failed(String::from("focus denied")),
        ],
    );
    assert_eq!(
        requests,
        vec![Request::FindWindow, Request::QueryVisibility, Request::Show, Request::SetFocus]
    );
    match step {
        Step::Finished(Err(error)) => {
            assert_eq!(error, ControllerError::FocusGrantError(String::from("focus denied")));
            assert!(error.window_left_visible());
            assert_eq!(error.message(), "focus denied");
        }
        other => panic!("unexpected {:?}", other),
    }
}

#[test]
fn reply_that_answers_nothing_leaves_the_call_waiting() {
    let fresh = Call::toggle_window(String::from("main"));
    for reply in [
        Reply::Visible,
        Reply::Hidden,
        Reply::Done,
        Reply::MonitorUnavailable,
        Reply::MonitorAvailable(full_hd(1.0)),
        Reply::Failed(String::from("x")),
    ] {
        assert_eq!(fresh.clone().advance(reply), Step::Pending(fresh.clone()));
    }
    let querying = Call::Geometry {
        command: GeometryCommand::Setup { height: 1 },
        unit_mode: UnitMode::Logical,
        stage: GeometryStage::QueryingMonitor,
    };
    for reply in [
        Reply::WindowFound,
        Reply::WindowMissing,
        Reply::Visible,
        Reply::Hidden,
        Reply::Done,
        Reply::Failed(String::from("x")),
    ] {
        assert_eq!(querying.clone().advance(reply), Step::Pending(querying.clone()));
    }
    let hiding = Call::Toggle { window_name: String::from("main"), stage: ToggleStage::Hiding };
    for reply in [Reply::WindowFound, Reply::WindowMissing, Reply::Visible, Reply::Hidden] {
        assert_eq!(hiding.clone().advance(reply), Step::Pending(hiding.clone()));
        assert_eq!(hiding.request(), Request::Hide);
    }
    let (requests, step) = drive(
        Call::toggle_window(String::from("main")),
        vec![Reply::Done, Reply::WindowFound, Reply::WindowFound, Reply::Visible, Reply::Done],
    );
    assert_eq!(
        requests,
        vec![
            Request::FindWindow,
            Request::FindWindow,
            Request::QueryVisibility,
            Request::QueryVisibility,
            Request::Hide,
        ]
    );
    assert_eq!(step, Step::Finished(Ok(Outcome::VisibilityChanged { visible: false })));
}

#[test]
fn calls_begin_with_the_lookup_of_their_window() {
    let setup = Call::setup_topbar_window(48, UnitMode::Physical);
    assert_eq!(
        setup,
        Call::Geometry {
            command: GeometryCommand::Setup { height: 48 },
            unit_mode: UnitMode::Physical,
            stage: GeometryStage::FindingWindow,
        }
    );
    assert_eq!(setup.request(), Request::FindWindow);
    let resize = Call::resize_topbar_window(800, 60, UnitMode::Logical);
    assert_eq!(
        resize,
        Call::Geometry {
            command: GeometryCommand::Resize { width: 800, height: 60 },
            unit_mode: UnitMode::Logical,
            stage: GeometryStage::FindingWindow,
        }
    );
    assert_eq!(resize.request(), Request::FindWindow);
    let toggle = Call::toggle_window(String::from("side panel"));
    assert_eq!(
        toggle,
        Call::Toggle { window_name: String::from("side panel"), stage: ToggleStage::FindingWindow }
    );
    assert_eq!(toggle.request(), Request::FindWindow);
    assert_eq!(toggle.window_name(), "side panel");
}

#[test]
fn geometry_command_plans_what_the_geometry_functions_give() {
    let monitor = full_hd(1.5);
    let setup = GeometryCommand::Setup { height: 20 };
    assert_eq!(
        setup.geometry(&monitor, UnitMode::Logical),
        AppliedGeometry { x: 256, y: 0, width: 768, height: 20 }
    );
    let resize = GeometryCommand::Resize { width: 280, height: 20 };
    assert_eq!(
        resize.geometry(&monitor, UnitMode::Logical),
        AppliedGeometry { x: 500, y: 0, width: 280, height: 20 }
    );
    assert_eq!(
        resize.geometry(&monitor, UnitMode::Physical),
        AppliedGeometry { x: 820, y: 0, width: 280, height: 20 }
    );
}

#[test]
fn first_monitor_needs_a_usable_scale_factor() {
    let reply = Reply::first_monitor(1920, 1080, 1.25f64.to_bits());
    assert_eq!(reply, Reply::MonitorAvailable(full_hd(1.25)));
    for scale in [0.0f64, -1.0, f64::NAN, f64::INFINITY, f64::MIN_POSITIVE / 4.0] {
        assert_eq!(Reply::first_monitor(1920, 1080, scale.to_bits()), Reply::MonitorUnavailable);
    }
    let (requests, step) = drive(
        Call::setup_topbar_window(48, UnitMode::Logical),
        vec![Reply::WindowFound, Reply::first_monitor(1920, 1080, 0.0f64.to_bits())],
    );
    assert_eq!(requests, vec![Request::FindWindow, Request::QueryMonitor]);
    assert_eq!(step, Step::Finished(Ok(Outcome::GeometrySkipped)));
}
