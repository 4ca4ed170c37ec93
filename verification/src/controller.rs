//! The three window commands as calls that a host shell carries out.
//!
//! A call never touches a window itself. It hands the host one request at a
//! time, the host performs it and answers with a reply, and the call either
//! goes on to its next request or finishes with its result. `Call::step`
//! says for every call and reply what comes next.

use crate::error::ControllerError;
use crate::geometry::{
    resize_geometry, resize_plan, setup_geometry, setup_plan, AppliedGeometry, MonitorDescriptor,
    UnitMode,
};
use crate::scale::{is_positive_normal, ScaleFactor};
use vstd::prelude::*;

verus! {

/// The name of the window that `setup_topbar_window` and
/// `resize_topbar_window` act on.
pub open spec fn topbar_window_name() -> Seq<char> {
    "topbar"@
}

/// What the host is asked to do next.
#[derive(Clone, Copy, Debug, PartialEq, Eq)]
pub enum Request {
    /// Look the call's window up by `Call::window_name`.
    FindWindow,
    /// Report the first monitor that the window's display system lists.
    QueryMonitor,
    /// Give the window this size.
    SetSize { width: u32, height: u32 },
    /// Move the window's top-left corner here.
    SetPosition { x: i32, y: i32 },
    /// Report whether the window is visible.
    QueryVisibility,
    /// Hide the window.
    Hide,
    /// Show the window.
    Show,
    /// Give the window the input focus.
    SetFocus,
}

impl Request {
    /// The request changes the window; the others only read.
    pub open spec fn is_mutation(self) -> bool {
        self is SetSize || self is SetPosition || self is Hide || self is Show || self is SetFocus
    }
}

/// What the host answers to a request.
#[derive(Debug, PartialEq, Eq)]
pub enum Reply {
    /// To `FindWindow`: the window exists.
    WindowFound,
    /// To `FindWindow`: the host has no window of that name.
    WindowMissing,
    /// To `QueryMonitor`: the first monitor listed.
    MonitorAvailable(MonitorDescriptor),
    /// To `QueryMonitor`: no monitor is listed, or the list cannot be had.
    MonitorUnavailable,
    /// To `QueryVisibility`: the window is visible.
    Visible,
    /// To `QueryVisibility`: the window is hidden.
    Hidden,
    /// To a request that changes the window: it was carried out.
    Done,
    /// To any request but `FindWindow` and `QueryMonitor`: the host failed,
    /// with its description of the failure.
    Failed(String),
}

/// What a call that succeeded has done.
#[derive(Clone, Copy, Debug, PartialEq, Eq)]
pub enum Outcome {
    /// Size and position were applied as given.
    GeometryApplied(AppliedGeometry),
    /// No monitor was reported: the window keeps the geometry it had.
    GeometrySkipped,
    /// The window was hidden or shown; `visible` is its new state, the
    /// negation of what the host reported when asked.
    VisibilityChanged { visible: bool },
}

/// Which geometry a call applies.
#[derive(Clone, Copy, Debug, PartialEq, Eq)]
pub enum GeometryCommand {
    /// Place the topbar: three fifths of the screen wide, `height` high.
    Setup { height: u32 },
    /// Resize the topbar to `width` by `height` and centre it.
    Resize { width: u32, height: u32 },
}

impl GeometryCommand {
    /// The geometry that the command applies on `monitor`.
    pub open spec fn plan(self, monitor: MonitorDescriptor, unit_mode: UnitMode)
        -> AppliedGeometry {
        match self {
            GeometryCommand::Setup { height } => setup_plan(monitor, height, unit_mode),
            GeometryCommand::Resize { width, height } => resize_plan(
                monitor,
                width,
                height,
                unit_mode,
            ),
        }
    }

    /// Computes the geometry that the command applies on `monitor`.
    pub fn geometry(&self, monitor: &MonitorDescriptor, unit_mode: UnitMode) -> (geometry:
        AppliedGeometry)
        ensures
            geometry == self.plan(*monitor, unit_mode),
    {
        match self {
            GeometryCommand::Setup { height } => setup_geometry(monitor, *height, unit_mode),
            GeometryCommand::Resize { width, height } => resize_geometry(
                monitor,
                *width,
                *height,
                unit_mode,
            ),
        }
    }
}

/// How far a geometry call has come: the request it waits on.
#[derive(Clone, Copy, Debug, PartialEq, Eq)]
pub enum GeometryStage {
    FindingWindow,
    QueryingMonitor,
    /// The size of this geometry is being applied; its position comes next.
    ApplyingSize(AppliedGeometry),
    /// The position of this geometry is being applied.
    ApplyingPosition(AppliedGeometry),
}

/// How far a toggle has come: the request it waits on.
#[derive(Clone, Copy, Debug, PartialEq, Eq)]
pub enum ToggleStage {
    FindingWindow,
    ReadingVisibility,
    Hiding,
    Showing,
    Focusing,
}

/// A call in progress.
#[derive(Debug, PartialEq, Eq)]
#[allow(inconsistent_fields)]
pub enum Call {
    /// A setup or a resize of the topbar window.
    Geometry { command: GeometryCommand, unit_mode: UnitMode, stage: GeometryStage },
    /// A toggle of the visibility of the window `window_name`.
    Toggle { window_name: String, stage: ToggleStage },
}

impl Reply {
    /// The reply to `QueryMonitor` for a monitor that the host lists first,
    /// with its size in physical pixels and the binary64 encoding of its
    /// scale factor. A monitor whose scale factor is not a positive normal
    /// number has no usable geometry and counts as not reported.
    pub fn first_monitor(physical_width: u32, physical_height: u32, scale_factor_bits: u64) -> (reply:
        Reply)
        ensures
            is_positive_normal(scale_factor_bits) ==> (reply matches Reply::MonitorAvailable(
                monitor,
            ) && monitor.physical_width == physical_width && monitor.physical_height
                == physical_height && monitor.scale_factor.bits() == scale_factor_bits
                && monitor.scale_factor.valid()),
            !is_positive_normal(scale_factor_bits) ==> reply == Reply::MonitorUnavailable,
    {
        match ScaleFactor::from_bits(scale_factor_bits) {
            Some(scale_factor) => Reply::MonitorAvailable(
                MonitorDescriptor::new(physical_width, physical_height, scale_factor),
            ),
            None => Reply::MonitorUnavailable,
        }
    }
}

impl Clone for Reply {
    fn clone(&self) -> (cloned: Self)
        ensures
            cloned == *self,
    {
        match self {
            Reply::WindowFound => Reply::WindowFound,
            Reply::WindowMissing => Reply::WindowMissing,
            Reply::MonitorAvailable(monitor) => Reply::MonitorAvailable(*monitor),
            Reply::MonitorUnavailable => Reply::MonitorUnavailable,
            Reply::Visible => Reply::Visible,
            Reply::Hidden => Reply::Hidden,
            Reply::Done => Reply::Done,
            Reply::Failed(description) => Reply::Failed(description.clone()),
        }
    }
}

impl Clone for Call {
    fn clone(&self) -> (cloned: Self)
        ensures
            cloned == *self,
    {
        match self {
            Call::Geometry { command, unit_mode, stage } => Call::Geometry {
                command: *command,
                unit_mode: *unit_mode,
                stage: *stage,
            },
            Call::Toggle { window_name, stage } => Call::Toggle {
                window_name: window_name.clone(),
                stage: *stage,
            },
        }
    }
}

/// A call after a reply: still waiting on the host, or finished.
#[derive(Debug, PartialEq, Eq)]
pub enum Step {
    /// The call goes on; `Call::request` says with what.
    Pending(Call),
    /// The call is over, with this result.
    Finished(Result<Outcome, ControllerError>),
}

impl Call {
    /// The call has just begun: it waits for its window to be looked up.
    pub open spec fn is_fresh(self) -> bool {
        match self {
            Call::Geometry { stage, .. } => stage is FindingWindow,
            Call::Toggle { stage, .. } => stage is FindingWindow,
        }
    }

    /// The name of the window the call acts on.
    pub open spec fn window_name_text(self) -> Seq<char> {
        match self {
            Call::Geometry { .. } => topbar_window_name(),
            Call::Toggle { window_name, .. } => window_name@,
        }
    }

    /// The request that the call waits on.
    pub open spec fn pending(self) -> Request {
        match self {
            Call::Geometry { stage, .. } => match stage {
                GeometryStage::FindingWindow => Request::FindWindow,
                GeometryStage::QueryingMonitor => Request::QueryMonitor,
                GeometryStage::ApplyingSize(geometry) => Request::SetSize {
                    width: geometry.width,
                    height: geometry.height,
                },
                GeometryStage::ApplyingPosition(geometry) => Request::SetPosition {
                    x: geometry.x,
                    y: geometry.y,
                },
            },
            Call::Toggle { stage, .. } => match stage {
                ToggleStage::FindingWindow => Request::FindWindow,
                ToggleStage::ReadingVisibility => Request::QueryVisibility,
                ToggleStage::Hiding => Request::Hide,
                ToggleStage::Showing => Request::Show,
                ToggleStage::Focusing => Request::SetFocus,
            },
        }
    }

    /// What the call comes to when the host answers its pending request with
    /// `reply`. A reply that is no answer to that request leaves the call as
    /// it is.
    pub open spec fn step(self, reply: Reply) -> Step {
        match self {
            Call::Geometry { command, unit_mode, stage } => match stage {
                GeometryStage::FindingWindow => match reply {
                    Reply::WindowFound => Step::Pending(
                        Call::Geometry { command, unit_mode, stage: GeometryStage::QueryingMonitor },
                    ),
                    Reply::WindowMissing => Step::Finished(Err(ControllerError::WindowNotFound)),
                    _ => Step::Pending(self),
                },
                GeometryStage::QueryingMonitor => match reply {
                    Reply::MonitorAvailable(monitor) => Step::Pending(
                        Call::Geometry {
                            command,
                            unit_mode,
                            stage: GeometryStage::ApplyingSize(command.plan(monitor, unit_mode)),
                        },
                    ),
                    Reply::MonitorUnavailable => Step::Finished(Ok(Outcome::GeometrySkipped)),
                    _ => Step::Pending(self),
                },
                GeometryStage::ApplyingSize(geometry) => match reply {
                    Reply::Done => Step::Pending(
                        Call::Geometry {
                            command,
                            unit_mode,
                            stage: GeometryStage::ApplyingPosition(geometry),
                        },
                    ),
                    Reply::Failed(description) => Step::Finished(
                        Err(ControllerError::GeometryApplyError(description)),
                    ),
                    _ => Step::Pending(self),
                },
                GeometryStage::ApplyingPosition(geometry) => match reply {
                    Reply::Done => Step::Finished(Ok(Outcome::GeometryApplied(geometry))),
                    Reply::Failed(description) => Step::Finished(
                        Err(ControllerError::GeometryApplyError(description)),
                    ),
                    _ => Step::Pending(self),
                },
            },
            Call::Toggle { window_name, stage } => match stage {
                ToggleStage::FindingWindow => match reply {
                    Reply::WindowFound => Step::Pending(
                        Call::Toggle { window_name, stage: ToggleStage::ReadingVisibility },
                    ),
                    Reply::WindowMissing => Step::Finished(Err(ControllerError::WindowNotFound)),
                    _ => Step::Pending(self),
                },
                ToggleStage::ReadingVisibility => match reply {
                    Reply::Visible => Step::Pending(
                        Call::Toggle { window_name, stage: ToggleStage::Hiding },
                    ),
                    Reply::Hidden => Step::Pending(
                        Call::Toggle { window_name, stage: ToggleStage::Showing },
                    ),
                    Reply::Failed(description) => Step::Finished(
                        Err(ControllerError::VisibilityReadError(description)),
                    ),
                    _ => Step::Pending(self),
                },
                ToggleStage::Hiding => match reply {
                    Reply::Done => Step::Finished(
                        Ok(Outcome::VisibilityChanged { visible: false }),
                    ),
                    Reply::Failed(description) => Step::Finished(
                        Err(ControllerError::VisibilityChangeError(description)),
                    ),
                    _ => Step::Pending(self),
                },
                ToggleStage::Showing => match reply {
                    Reply::Done => Step::Pending(
                        Call::Toggle { window_name, stage: ToggleStage::Focusing },
                    ),
                    Reply::Failed(description) => Step::Finished(
                        Err(ControllerError::VisibilityChangeError(description)),
                    ),
                    _ => Step::Pending(self),
                },
                ToggleStage::Focusing => match reply {
                    Reply::Done => Step::Finished(Ok(Outcome::VisibilityChanged { visible: true })),
                    Reply::Failed(description) => Step::Finished(
                        Err(ControllerError::FocusGrantError(description)),
                    ),
                    _ => Step::Pending(self),
                },
            },
        }
    }

    /// A setup of the topbar window, `height` high, in the pixels of
    /// `unit_mode`. It begins by looking the window up.
    pub fn setup_topbar_window(height: u32, unit_mode: UnitMode) -> (call: Call)
        ensures
            call == (Call::Geometry {
                command: GeometryCommand::Setup { height },
                unit_mode,
                stage: GeometryStage::FindingWindow,
            }),
            call.is_fresh(),
    {
        Call::Geometry {
            command: GeometryCommand::Setup { height },
            unit_mode,
            stage: GeometryStage::FindingWindow,
        }
    }

    /// A resize of the topbar window to `width` by `height`, in the pixels
    /// of `unit_mode`. It begins by looking the window up.
    pub fn resize_topbar_window(width: u32, height: u32, unit_mode: UnitMode) -> (call: Call)
        ensures
            call == (Call::Geometry {
                command: GeometryCommand::Resize { width, height },
                unit_mode,
                stage: GeometryStage::FindingWindow,
            }),
            call.is_fresh(),
    {
        Call::Geometry {
            command: GeometryCommand::Resize { width, height },
            unit_mode,
            stage: GeometryStage::FindingWindow,
        }
    }

    /// A toggle of the visibility of the window `window_name`. It begins by
    /// looking the window up.
    pub fn toggle_window(window_name: String) -> (call: Call)
        ensures
            call == (Call::Toggle { window_name, stage: ToggleStage::FindingWindow }),
            call.is_fresh(),
    {
        Call::Toggle { window_name, stage: ToggleStage::FindingWindow }
    }

    /// The name of the window the call acts on.
    pub fn window_name(&self) -> (name: &str)
        ensures
            name@ == self.window_name_text(),
    {
        match self {
            Call::Geometry { .. } => "topbar",
            Call::Toggle { window_name, .. } => window_name.as_str(),
        }
    }

    /// The request that the host has to carry out next.
    pub fn request(&self) -> (request: Request)
        ensures
            request == self.pending(),
    {
        match self {
            Call::Geometry { stage, .. } => match stage {
                GeometryStage::FindingWindow => Request::FindWindow,
                GeometryStage::QueryingMonitor => Request::QueryMonitor,
                GeometryStage::ApplyingSize(geometry) => Request::SetSize {
                    width: geometry.width,
                    height: geometry.height,
                },
                GeometryStage::ApplyingPosition(geometry) => Request::SetPosition {
                    x: geometry.x,
                    y: geometry.y,
                },
            },
            Call::Toggle { stage, .. } => match stage {
                ToggleStage::FindingWindow => Request::FindWindow,
                ToggleStage::ReadingVisibility => Request::QueryVisibility,
                ToggleStage::Hiding => Request::Hide,
                ToggleStage::Showing => Request::Show,
                ToggleStage::Focusing => Request::SetFocus,
            },
        }
    }

    /// Takes the host's reply to the pending request and says how the call
    /// goes on.
    pub fn advance(self, reply: Reply) -> (step: Step)
        ensures
            step == self.step(reply),
    {
        match self {
            Call::Geometry { command, unit_mode, stage } => advance_geometry(
                command,
                unit_mode,
                stage,
                reply,
            ),
            Call::Toggle { window_name, stage } => advance_toggle(window_name, stage, reply),
        }
    }
}

fn advance_geometry(
    command: GeometryCommand,
    unit_mode: UnitMode,
    stage: GeometryStage,
    reply: Reply,
) -> (step: Step)
    ensures
        step == (Call::Geometry { command, unit_mode, stage }).step(reply),
{
    match stage {
        GeometryStage::FindingWindow => match reply {
            Reply::WindowFound => Step::Pending(
                Call::Geometry { command, unit_mode, stage: GeometryStage::QueryingMonitor },
            ),
            Reply::WindowMissing => Step::Finished(Err(ControllerError::WindowNotFound)),
            _ => Step::Pending(Call::Geometry { command, unit_mode, stage }),
        },
        GeometryStage::QueryingMonitor => match reply {
            Reply::MonitorAvailable(monitor) => {
                let geometry = command.geometry(&monitor, unit_mode);
                Step::Pending(
                    Call::Geometry {
                        command,
                        unit_mode,
                        stage: GeometryStage::ApplyingSize(geometry),
                    },
                )
            },
            Reply::MonitorUnavailable => Step::Finished(Ok(Outcome::GeometrySkipped)),
            _ => Step::Pending(Call::Geometry { command, unit_mode, stage }),
        },
        GeometryStage::ApplyingSize(geometry) => match reply {
            Reply::Done => Step::Pending(
                Call::Geometry {
                    command,
                    unit_mode,
                    stage: GeometryStage::ApplyingPosition(geometry),
                },
            ),
            Reply::Failed(description) => Step::Finished(
                Err(ControllerError::GeometryApplyError(description)),
            ),
            _ => Step::Pending(Call::Geometry { command, unit_mode, stage }),
        },
        GeometryStage::ApplyingPosition(geometry) => match reply {
            Reply::Done => Step::Finished(Ok(Outcome::GeometryApplied(geometry))),
            Reply::Failed(description) => Step::Finished(
                Err(ControllerError::GeometryApplyError(description)),
            ),
            _ => Step::Pending(Call::Geometry { command, unit_mode, stage }),
        },
    }
}

fn advance_toggle(window_name: String, stage: ToggleStage, reply: Reply) -> (step: Step)
    ensures
        step == (Call::Toggle { window_name, stage }).step(reply),
{
    match stage {
        ToggleStage::FindingWindow => match reply {
            Reply::WindowFound => Step::Pending(
                Call::Toggle { window_name, stage: ToggleStage::ReadingVisibility },
            ),
            Reply::WindowMissing => Step::Finished(Err(ControllerError::WindowNotFound)),
            _ => Step::Pending(Call::Toggle { window_name, stage }),
        },
        ToggleStage::ReadingVisibility => match reply {
            Reply::Visible => Step::Pending(
                Call::Toggle { window_name, stage: ToggleStage::Hiding },
            ),
            Reply::Hidden => Step::Pending(
                Call::Toggle { window_name, stage: ToggleStage::Showing },
            ),
            Reply::Failed(description) => Step::Finished(
                Err(ControllerError::VisibilityReadError(description)),
            ),
            _ => Step::Pending(Call::Toggle { window_name, stage }),
        },
        ToggleStage::Hiding => match reply {
            Reply::Done => Step::Finished(Ok(Outcome::VisibilityChanged { visible: false })),
            Reply::Failed(description) => Step::Finished(
                Err(ControllerError::VisibilityChangeError(description)),
            ),
            _ => Step::Pending(Call::Toggle { window_name, stage }),
        },
        ToggleStage::Showing => match reply {
            Reply::Done => Step::Pending(
                Call::Toggle { window_name, stage: ToggleStage::Focusing },
            ),
            Reply::Failed(description) => Step::Finished(
                Err(ControllerError::VisibilityChangeError(description)),
            ),
            _ => Step::Pending(Call::Toggle { window_name, stage }),
        },
        ToggleStage::Focusing => match reply {
            Reply::Done => Step::Finished(Ok(Outcome::VisibilityChanged { visible: true })),
            Reply::Failed(description) => Step::Finished(
                Err(ControllerError::FocusGrantError(description)),
            ),
            _ => Step::Pending(Call::Toggle { window_name, stage }),
        },
    }
}

} // verus!
