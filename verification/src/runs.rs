//! Whole calls: what a call hands out and comes to over a sequence of replies.
//!
//! `run` and `requests` extend `Call::step` to the replies of a host, in
//! order. The proof functions of this module state what holds of every call:
//! which requests can reach the host before the window is known, what a
//! missing window or a missing monitor leads to, and what a toggle does to a
//! visible and to a hidden window.

use crate::controller::{
    Call, GeometryCommand, GeometryStage, Outcome, Reply, Request, Step, ToggleStage,
};
use crate::error::ControllerError;
use crate::geometry::{MonitorDescriptor, UnitMode};
use vstd::prelude::*;

verus! {

/// What `call` has come to after the host gave `replies`, in order. Replies
/// that follow the one that finished the call are not read.
pub open spec fn run(call: Call, replies: Seq<Reply>) -> Step
    decreases replies.len(),
{
    if replies.len() == 0 {
        Step::Pending(call)
    } else {
        match call.step(replies[0]) {
            Step::Pending(next) => run(next, replies.drop_first()),
            Step::Finished(result) => Step::Finished(result),
        }
    }
}

/// The requests that `call` hands to the host while it is given `replies`,
/// in order: the pending one first, then one after every reply that does
/// not finish the call.
pub open spec fn requests(call: Call, replies: Seq<Reply>) -> Seq<Request>
    decreases replies.len(),
{
    if replies.len() == 0 {
        seq![call.pending()]
    } else {
        match call.step(replies[0]) {
            Step::Pending(next) => seq![call.pending()] + requests(next, replies.drop_first()),
            Step::Finished(_) => seq![call.pending()],
        }
    }
}

/// The fresh geometry call for `command` in `unit_mode`.
pub open spec fn geometry_call(command: GeometryCommand, unit_mode: UnitMode) -> Call {
    Call::Geometry { command, unit_mode, stage: GeometryStage::FindingWindow }
}

/// The fresh toggle of the window `window_name`.
pub open spec fn toggle_call(window_name: String) -> Call {
    Call::Toggle { window_name, stage: ToggleStage::FindingWindow }
}

/// `replies` begins with the replies of `prefix`.
pub open spec fn begins_with(replies: Seq<Reply>, prefix: Seq<Reply>) -> bool {
    prefix.len() <= replies.len() && replies.subrange(0, prefix.len() as int) == prefix
}

/// A call whose window the host does not have ends with `WindowNotFound`,
/// whatever the command and the window's name, and the one request it has
/// handed out is the lookup: the host is asked for no monitor and for no
/// change to any window.
pub proof fn lemma_missing_window_ends_call(call: Call, replies: Seq<Reply>)
    requires
        call.is_fresh(),
        replies.len() > 0,
        replies[0] == Reply::WindowMissing,
    ensures
        run(call, replies) == Step::Finished(Err(ControllerError::WindowNotFound)),
        requests(call, replies) == seq![Request::FindWindow],
{
}

/// Until the host reports the window as found, a call asks for nothing but
/// the lookup of its window, whatever else the host replies; and it has
/// either not moved or ended with `WindowNotFound`.
pub proof fn lemma_nothing_before_window_found(call: Call, replies: Seq<Reply>)
    requires
        call.is_fresh(),
        forall|i: int| 0 <= i < replies.len() ==> replies[i] != Reply::WindowFound,
    ensures
        forall|j: int|
            0 <= j < requests(call, replies).len() ==> requests(call, replies)[j]
                == Request::FindWindow,
        run(call, replies) == Step::Pending(call) || run(call, replies) == Step::Finished(
            Err(ControllerError::WindowNotFound),
        ),
    decreases replies.len(),
{
    if replies.len() > 0 {
        let rest = replies.drop_first();
        assert(replies[0] != Reply::WindowFound);
        assert forall|i: int| 0 <= i < rest.len() implies rest[i] != Reply::WindowFound by {
            assert(rest[i] == replies[i + 1]);
        }
        match call.step(replies[0]) {
            Step::Pending(next) => {
                assert(next == call);
                lemma_nothing_before_window_found(call, rest);
            },
            Step::Finished(_) => {},
        }
    }
}

/// The call waits for its window or for the monitor: it has not yet asked
/// for any change.
pub open spec fn before_geometry(call: Call) -> bool {
    call matches Call::Geometry { stage, .. } && (stage is FindingWindow || stage
        is QueryingMonitor)
}

/// A setup or resize that is never given a monitor never asks the host to
/// change the window, whatever the host replies.
pub proof fn lemma_no_geometry_without_monitor(call: Call, replies: Seq<Reply>)
    requires
        before_geometry(call),
        forall|i: int| 0 <= i < replies.len() ==> !(replies[i] is MonitorAvailable),
    ensures
        forall|j: int|
            0 <= j < requests(call, replies).len() ==> !requests(call, replies)[j].is_mutation(),
        run(call, replies) matches Step::Finished(Ok(outcome)) ==> outcome
            == Outcome::GeometrySkipped,
    decreases replies.len(),
{
    if replies.len() > 0 {
        let rest = replies.drop_first();
        assert(!(replies[0] is MonitorAvailable));
        assert forall|i: int| 0 <= i < rest.len() implies !(rest[i] is MonitorAvailable) by {
            assert(rest[i] == replies[i + 1]);
        }
        match call.step(replies[0]) {
            Step::Pending(next) => {
                assert(before_geometry(next));
                lemma_no_geometry_without_monitor(next, rest);
                let all = requests(call, replies);
                let later = requests(next, rest);
                assert(all == seq![call.pending()] + later);
                assert forall|j: int| 0 <= j < all.len() implies !all[j].is_mutation() by {
                    if j > 0 {
                        assert(all[j] == later[j - 1]);
                    }
                }
            },
            Step::Finished(_) => {},
        }
    }
}

/// Where the window exists and the host reports no monitor, a setup or
/// resize succeeds without asking for a size or a position: it has looked
/// the window up and asked for the monitor, and no more.
pub proof fn lemma_no_monitor_skips_geometry(
    command: GeometryCommand,
    unit_mode: UnitMode,
    replies: Seq<Reply>,
)
    requires
        begins_with(replies, seq![Reply::WindowFound, Reply::MonitorUnavailable]),
    ensures
        run(geometry_call(command, unit_mode), replies) == Step::Finished(
            Ok(Outcome::GeometrySkipped),
        ),
        requests(geometry_call(command, unit_mode), replies) == seq![
            Request::FindWindow,
            Request::QueryMonitor,
        ],
{
    let prefix = seq![Reply::WindowFound, Reply::MonitorUnavailable];
    assert(replies[0] == prefix[0]);
    assert(replies[1] == prefix[1]);
    let rest = replies.drop_first();
    assert(rest[0] == replies[1]);
    reveal_with_fuel(run, 3);
    reveal_with_fuel(requests, 3);
    assert(requests(geometry_call(command, unit_mode), replies) =~= seq![
        Request::FindWindow,
        Request::QueryMonitor,
    ]);
}

/// Where the window exists, a monitor is reported and the host carries out
/// both changes, a setup or resize asks for the planned size, then for the
/// planned position, and succeeds with the planned geometry.
pub proof fn lemma_geometry_applied(
    command: GeometryCommand,
    unit_mode: UnitMode,
    monitor: MonitorDescriptor,
    replies: Seq<Reply>,
)
    requires
        begins_with(
            replies,
            seq![Reply::WindowFound, Reply::MonitorAvailable(monitor), Reply::Done, Reply::Done],
        ),
    ensures
        run(geometry_call(command, unit_mode), replies) == Step::Finished(
            Ok(Outcome::GeometryApplied(command.plan(monitor, unit_mode))),
        ),
        requests(geometry_call(command, unit_mode), replies) == seq![
            Request::FindWindow,
            Request::QueryMonitor,
            Request::SetSize {
                width: command.plan(monitor, unit_mode).width,
                height: command.plan(monitor, unit_mode).height,
            },
            Request::SetPosition {
                x: command.plan(monitor, unit_mode).x,
                y: command.plan(monitor, unit_mode).y,
            },
        ],
{
    let prefix = seq![
        Reply::WindowFound,
        Reply::MonitorAvailable(monitor),
        Reply::Done,
        Reply::Done,
    ];
    assert(replies[0] == prefix[0]);
    assert(replies[1] == prefix[1]);
    assert(replies[2] == prefix[2]);
    assert(replies[3] == prefix[3]);
    let r1 = replies.drop_first();
    let r2 = r1.drop_first();
    let r3 = r2.drop_first();
    assert(r1[0] == replies[1]);
    assert(r2[0] == replies[2]);
    assert(r3[0] == replies[3]);
    let plan = command.plan(monitor, unit_mode);
    let c0 = geometry_call(command, unit_mode);
    let c1 = Call::Geometry { command, unit_mode, stage: GeometryStage::QueryingMonitor };
    let c2 = Call::Geometry { command, unit_mode, stage: GeometryStage::ApplyingSize(plan) };
    let c3 = Call::Geometry { command, unit_mode, stage: GeometryStage::ApplyingPosition(plan) };
    assert(c0.step(replies[0]) == Step::Pending(c1));
    assert(c1.step(r1[0]) == Step::Pending(c2));
    assert(c2.step(r2[0]) == Step::Pending(c3));
    assert(c3.step(r3[0]) == Step::Finished(Ok(Outcome::GeometryApplied(plan))));
    assert(run(c3, r3) == Step::Finished(Ok(Outcome::GeometryApplied(plan))));
    assert(run(c2, r2) == run(c3, r3));
    assert(run(c1, r1) == run(c2, r2));
    assert(run(c0, replies) == run(c1, r1));
    assert(requests(c3, r3) == seq![c3.pending()]);
    assert(requests(c2, r2) == seq![c2.pending()] + requests(c3, r3));
    assert(requests(c1, r1) == seq![c1.pending()] + requests(c2, r2));
    assert(requests(c0, replies) == seq![c0.pending()] + requests(c1, r1));
    assert(requests(c0, replies) =~= seq![
        Request::FindWindow,
        Request::QueryMonitor,
        Request::SetSize { width: plan.width, height: plan.height },
        Request::SetPosition { x: plan.x, y: plan.y },
    ]);
}

/// Where the host fails to apply the size, the call ends with the host's
/// description and never asks for the position. Where it fails to apply
/// the position, the call ends with the host's description and asks for
/// nothing more: the size stays applied.
pub proof fn lemma_geometry_failure_is_final(
    command: GeometryCommand,
    unit_mode: UnitMode,
    monitor: MonitorDescriptor,
    description: String,
    replies: Seq<Reply>,
)
    ensures
        begins_with(
            replies,
            seq![Reply::WindowFound, Reply::MonitorAvailable(monitor), Reply::Failed(description)],
        ) ==> run(geometry_call(command, unit_mode), replies) == Step::Finished(
            Err(ControllerError::GeometryApplyError(description)),
        ) && requests(geometry_call(command, unit_mode), replies).len() == 3,
        begins_with(
            replies,
            seq![
                Reply::WindowFound,
                Reply::MonitorAvailable(monitor),
                Reply::Done,
                Reply::Failed(description),
            ],
        ) ==> run(geometry_call(command, unit_mode), replies) == Step::Finished(
            Err(ControllerError::GeometryApplyError(description)),
        ) && requests(geometry_call(command, unit_mode), replies).len() == 4,
{
    let plan = command.plan(monitor, unit_mode);
    let c0 = geometry_call(command, unit_mode);
    let c1 = Call::Geometry { command, unit_mode, stage: GeometryStage::QueryingMonitor };
    let c2 = Call::Geometry { command, unit_mode, stage: GeometryStage::ApplyingSize(plan) };
    let c3 = Call::Geometry { command, unit_mode, stage: GeometryStage::ApplyingPosition(plan) };
    let failed = Step::Finished(Err(ControllerError::GeometryApplyError(description)));
    let early = seq![
        Reply::WindowFound,
        Reply::MonitorAvailable(monitor),
        Reply::Failed(description),
    ];
    let late = seq![
        Reply::WindowFound,
        Reply::MonitorAvailable(monitor),
        Reply::Done,
        Reply::Failed(description),
    ];
    if begins_with(replies, early) {
        assert(replies[0] == early[0]);
        assert(replies[1] == early[1]);
        assert(replies[2] == early[2]);
        let r1 = replies.drop_first();
        let r2 = r1.drop_first();
        assert(r1[0] == replies[1]);
        assert(r2[0] == replies[2]);
        assert(c0.step(replies[0]) == Step::Pending(c1));
        assert(c1.step(r1[0]) == Step::Pending(c2));
        assert(c2.step(r2[0]) == failed);
        assert(run(c2, r2) == failed);
        assert(run(c1, r1) == run(c2, r2));
        assert(run(c0, replies) == run(c1, r1));
        assert(requests(c2, r2) == seq![c2.pending()]);
        assert(requests(c1, r1) == seq![c1.pending()] + requests(c2, r2));
        assert(requests(c0, replies) == seq![c0.pending()] + requests(c1, r1));
    }
    if begins_with(replies, late) {
        assert(replies[0] == late[0]);
        assert(replies[1] == late[1]);
        assert(replies[2] == late[2]);
        assert(replies[3] == late[3]);
        let r1 = replies.drop_first();
        let r2 = r1.drop_first();
        let r3 = r2.drop_first();
        assert(r1[0] == replies[1]);
        assert(r2[0] == replies[2]);
        assert(r3[0] == replies[3]);
        assert(c0.step(replies[0]) == Step::Pending(c1));
        assert(c1.step(r1[0]) == Step::Pending(c2));
        assert(c2.step(r2[0]) == Step::Pending(c3));
        assert(c3.step(r3[0]) == failed);
        assert(run(c3, r3) == failed);
        assert(run(c2, r2) == run(c3, r3));
        assert(run(c1, r1) == run(c2, r2));
        assert(run(c0, replies) == run(c1, r1));
        assert(requests(c3, r3) == seq![c3.pending()]);
        assert(requests(c2, r2) == seq![c2.pending()] + requests(c3, r3));
        assert(requests(c1, r1) == seq![c1.pending()] + requests(c2, r2));
        assert(requests(c0, replies) == seq![c0.pending()] + requests(c1, r1));
    }
}

/// A toggle of a visible window hides it and reports it as not visible:
/// after the lookup and the visibility query, the one change asked for is
/// to hide the window.
pub proof fn lemma_toggle_hides_visible_window(window_name: String, replies: Seq<Reply>)
    requires
        begins_with(replies, seq![Reply::WindowFound, Reply::Visible, Reply::Done]),
    ensures
        run(toggle_call(window_name), replies) == Step::Finished(
            Ok(Outcome::VisibilityChanged { visible: false }),
        ),
        requests(toggle_call(window_name), replies) == seq![
            Request::FindWindow,
            Request::QueryVisibility,
            Request::Hide,
        ],
{
    let prefix = seq![Reply::WindowFound, Reply::Visible, Reply::Done];
    assert(replies[0] == prefix[0]);
    assert(replies[1] == prefix[1]);
    assert(replies[2] == prefix[2]);
    let r1 = replies.drop_first();
    let r2 = r1.drop_first();
    assert(r1[0] == replies[1]);
    assert(r2[0] == replies[2]);
    let c0 = toggle_call(window_name);
    let c1 = Call::Toggle { window_name, stage: ToggleStage::ReadingVisibility };
    let c2 = Call::Toggle { window_name, stage: ToggleStage::Hiding };
    let done = Step::Finished(Ok(Outcome::VisibilityChanged { visible: false }));
    assert(c0.step(replies[0]) == Step::Pending(c1));
    assert(c1.step(r1[0]) == Step::Pending(c2));
    assert(c2.step(r2[0]) == done);
    assert(run(c2, r2) == done);
    assert(run(c1, r1) == run(c2, r2));
    assert(run(c0, replies) == run(c1, r1));
    assert(requests(c2, r2) == seq![c2.pending()]);
    assert(requests(c1, r1) == seq![c1.pending()] + requests(c2, r2));
    assert(requests(c0, replies) == seq![c0.pending()] + requests(c1, r1));
    assert(requests(c0, replies) =~= seq![
        Request::FindWindow,
        Request::QueryVisibility,
        Request::Hide,
    ]);
}

/// A toggle of a hidden window shows it, then gives it the focus, and
/// reports it as visible.
pub proof fn lemma_toggle_shows_hidden_window(window_name: String, replies: Seq<Reply>)
    requires
        begins_with(replies, seq![Reply::WindowFound, Reply::Hidden, Reply::Done, Reply::Done]),
    ensures
        run(toggle_call(window_name), replies) == Step::Finished(
            Ok(Outcome::VisibilityChanged { visible: true }),
        ),
        requests(toggle_call(window_name), replies) == seq![
            Request::FindWindow,
            Request::QueryVisibility,
            Request::Show,
            Request::SetFocus,
        ],
{
    let prefix = seq![Reply::WindowFound, Reply::Hidden, Reply::Done, Reply::Done];
    assert(replies[0] == prefix[0]);
    assert(replies[1] == prefix[1]);
    assert(replies[2] == prefix[2]);
    assert(replies[3] == prefix[3]);
    let r1 = replies.drop_first();
    let r2 = r1.drop_first();
    let r3 = r2.drop_first();
    assert(r1[0] == replies[1]);
    assert(r2[0] == replies[2]);
    assert(r3[0] == replies[3]);
    let c0 = toggle_call(window_name);
    let c1 = Call::Toggle { window_name, stage: ToggleStage::ReadingVisibility };
    let c2 = Call::Toggle { window_name, stage: ToggleStage::Showing };
    let c3 = Call::Toggle { window_name, stage: ToggleStage::Focusing };
    let done = Step::Finished(Ok(Outcome::VisibilityChanged { visible: true }));
    assert(c0.step(replies[0]) == Step::Pending(c1));
    assert(c1.step(r1[0]) == Step::Pending(c2));
    assert(c2.step(r2[0]) == Step::Pending(c3));
    assert(c3.step(r3[0]) == done);
    assert(run(c3, r3) == done);
    assert(run(c2, r2) == run(c3, r3));
    assert(run(c1, r1) == run(c2, r2));
    assert(run(c0, replies) == run(c1, r1));
    assert(requests(c3, r3) == seq![c3.pending()]);
    assert(requests(c2, r2) == seq![c2.pending()] + requests(c3, r3));
    assert(requests(c1, r1) == seq![c1.pending()] + requests(c2, r2));
    assert(requests(c0, replies) == seq![c0.pending()] + requests(c1, r1));
    assert(requests(c0, replies) =~= seq![
        Request::FindWindow,
        Request::QueryVisibility,
        Request::Show,
        Request::SetFocus,
    ]);
}

/// Where the host shows a hidden window but fails to give it the focus, the
/// toggle ends with `FocusGrantError` and the host's description, after the
/// window was shown: the failure is told apart from one that left the
/// window as it was.
pub proof fn lemma_toggle_focus_failure(
    window_name: String,
    description: String,
    replies: Seq<Reply>,
)
    requires
        begins_with(
            replies,
            seq![Reply::WindowFound, Reply::Hidden, Reply::Done, Reply::Failed(description)],
        ),
    ensures
        run(toggle_call(window_name), replies) == Step::Finished(
            Err(ControllerError::FocusGrantError(description)),
        ),
        ControllerError::FocusGrantError(description).left_window_visible(),
        ControllerError::FocusGrantError(description).message_text() == description@,
        requests(toggle_call(window_name), replies) == seq![
            Request::FindWindow,
            Request::QueryVisibility,
            Request::Show,
            Request::SetFocus,
        ],
{
    let prefix = seq![
        Reply::WindowFound,
        Reply::Hidden,
        Reply::Done,
        Reply::Failed(description),
    ];
    assert(replies[0] == prefix[0]);
    assert(replies[1] == prefix[1]);
    assert(replies[2] == prefix[2]);
    assert(replies[3] == prefix[3]);
    let r1 = replies.drop_first();
    let r2 = r1.drop_first();
    let r3 = r2.drop_first();
    assert(r1[0] == replies[1]);
    assert(r2[0] == replies[2]);
    assert(r3[0] == replies[3]);
    let c0 = toggle_call(window_name);
    let c1 = Call::Toggle { window_name, stage: ToggleStage::ReadingVisibility };
    let c2 = Call::Toggle { window_name, stage: ToggleStage::Showing };
    let c3 = Call::Toggle { window_name, stage: ToggleStage::Focusing };
    let failed = Step::Finished(Err(ControllerError::FocusGrantError(description)));
    assert(c0.step(replies[0]) == Step::Pending(c1));
    assert(c1.step(r1[0]) == Step::Pending(c2));
    assert(c2.step(r2[0]) == Step::Pending(c3));
    assert(c3.step(r3[0]) == failed);
    assert(run(c3, r3) == failed);
    assert(run(c2, r2) == run(c3, r3));
    assert(run(c1, r1) == run(c2, r2));
    assert(run(c0, replies) == run(c1, r1));
    assert(requests(c3, r3) == seq![c3.pending()]);
    assert(requests(c2, r2) == seq![c2.pending()] + requests(c3, r3));
    assert(requests(c1, r1) == seq![c1.pending()] + requests(c2, r2));
    assert(requests(c0, replies) == seq![c0.pending()] + requests(c1, r1));
    assert(requests(c0, replies) =~= seq![
        Request::FindWindow,
        Request::QueryVisibility,
        Request::Show,
        Request::SetFocus,
    ]);
}

/// What the host must have replied to the visibility query for a toggle to
/// report `visible`: the opposite state.
pub open spec fn observed_before(visible: bool) -> Reply {
    if visible {
        Reply::Hidden
    } else {
        Reply::Visible
    }
}

/// The call is a toggle that has not yet learnt whether its window is
/// visible.
pub open spec fn before_visibility(call: Call) -> bool {
    call matches Call::Toggle { stage, .. } && (stage is FindingWindow || stage
        is ReadingVisibility)
}

/// The visibility that a toggle reports is the negation of what the host
/// reported when asked, whatever else the host replied before and after.
pub proof fn lemma_toggle_reports_negation(call: Call, replies: Seq<Reply>, visible: bool)
    requires
        before_visibility(call),
        run(call, replies) == Step::Finished(Ok(Outcome::VisibilityChanged { visible })),
    ensures
        replies.contains(observed_before(visible)),
    decreases replies.len(),
{
    if replies.len() > 0 {
        let rest = replies.drop_first();
        match call.step(replies[0]) {
            Step::Pending(next) => {
                if before_visibility(next) {
                    lemma_toggle_reports_negation(next, rest, visible);
                    let i = choose|i: int|
                        0 <= i < rest.len() && rest[i] == observed_before(visible);
                    assert(replies[i + 1] == rest[i]);
                } else {
                    lemma_toggle_after_read(next, rest);
                    assert(replies[0] == observed_before(visible));
                }
            },
            Step::Finished(_) => {},
        }
    }
}

proof fn lemma_toggle_after_read(call: Call, replies: Seq<Reply>)
    requires
        call matches Call::Toggle { stage, .. } && (stage is Hiding || stage is Showing || stage
            is Focusing),
    ensures
        run(call, replies) matches Step::Finished(Ok(outcome)) ==> outcome
            == (Outcome::VisibilityChanged {
            visible: !(call matches Call::Toggle { stage, .. } && stage is Hiding),
        }),
    decreases replies.len(),
{
    if replies.len() > 0 {
        match call.step(replies[0]) {
            Step::Pending(next) => {
                lemma_toggle_after_read(next, replies.drop_first());
            },
            Step::Finished(_) => {},
        }
    }
}

} // verus!
