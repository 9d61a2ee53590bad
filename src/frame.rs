//! The per-frame protocol: update host state, dispatch the compute kernel,
//! render and present, and reconfigure the surface when it changes size or
//! is lost.
use vstd::prelude::*;

verus! {

/// Workgroup width declared by the compute kernel.
pub const WORKGROUP_SIZE_X: u32 = 1;

/// Workgroup height declared by the compute kernel.
pub const WORKGROUP_SIZE_Y: u32 = 1;

/// Dimensions in pixels.
#[derive(Debug, Clone, Copy, PartialEq, Eq, Structural)]
pub struct SurfaceSize {
    pub width: u32,
    pub height: u32,
}

/// Where the orchestrator stands within a frame.
#[derive(Debug, Clone, Copy, PartialEq, Eq, Structural)]
pub enum FramePhase {
    Idle,
    Updating,
    Dispatching,
    Presenting,
    Reconfiguring,
    Stopped,
}

/// How acquiring and presenting the surface image ended.
#[derive(Debug, Clone, Copy, PartialEq, Eq, Structural)]
pub enum PresentOutcome {
    Presented,
    Lost,
    Outdated,
    Timeout,
    OutOfMemory,
}

/// What the window loop reports back to the orchestrator.
#[derive(Debug, Clone, Copy, PartialEq, Eq, Structural)]
pub enum FrameEvent {
    /// The window asks for a new frame.
    RedrawRequested,
    /// The action last asked for has been carried out.
    StepDone,
    /// The render pass was submitted and the surface image presented, or not.
    PresentFinished(PresentOutcome),
    /// The window now has this size.
    Resized(SurfaceSize),
    /// The window is to close.
    CloseRequested,
}

/// What the window loop is to do next.
#[derive(Debug, Clone, Copy, PartialEq, Eq, Structural)]
pub enum FrameAction {
    Nothing,
    /// Advance the clock, move the camera and write both uniforms.
    UpdateHostState,
    /// Record the compute pass over this grid of workgroups.
    DispatchCompute { groups_x: u32, groups_y: u32 },
    /// Acquire the surface image, record the render pass, submit both
    /// passes together and present.
    RenderAndPresent,
    /// Configure the surface with this size.
    ConfigureSurface(SurfaceSize),
    /// Drop this frame and report why.
    SkipFrame(PresentOutcome),
    /// Stop the loop.
    Exit,
}

/// `a / b` rounded up.
pub open spec fn ceil_div(a: int, b: int) -> int {
    (a + b - 1) / b
}

/// Workgroups needed along one axis of `extent` pixels with groups of
/// `group` pixels.
pub fn groups_for(extent: u32, group: u32) -> (r: u32)
    requires
        group > 0,
    ensures
        r == ceil_div(extent as int, group as int),
{
    let q = extent / group;
    let rem = extent % group;
    proof {
        let (e, g) = (extent as int, group as int);
        assert(e == g * (q as int) + rem as int) by (nonlinear_arith)
            requires q as int == e / g, rem as int == e % g, g > 0;
        if rem == 0 {
            assert((e + g - 1) / g == q as int) by (nonlinear_arith)
                requires e == g * (q as int), g > 0;
        } else {
            assert((e + g - 1) / g == q as int + 1) by (nonlinear_arith)
                requires e == g * (q as int) + rem as int, 0 < rem as int, (rem as int) < g, g > 0;
        }
        assert(q as int * g <= e) by (nonlinear_arith)
            requires e == g * (q as int) + rem as int, 0 <= rem as int;
        if rem != 0 {
            assert(q < u32::MAX) by (nonlinear_arith)
                requires q as int * g <= e, e <= u32::MAX, g >= 1, 0 < rem as int,
                    e == g * (q as int) + rem as int;
        }
    }
    if rem == 0 {
        q
    } else {
        q + 1
    }
}

/// The dispatch grid that covers an output image of `image` pixels with the
/// kernel's workgroups.
pub fn dispatch_size(image: SurfaceSize) -> (r: (u32, u32))
    ensures
        r.0 == ceil_div(image.width as int, WORKGROUP_SIZE_X as int),
        r.1 == ceil_div(image.height as int, WORKGROUP_SIZE_Y as int),
{
    (groups_for(image.width, WORKGROUP_SIZE_X), groups_for(image.height, WORKGROUP_SIZE_Y))
}

/// A grid of `ceil_div(extent, group)` workgroups reaches every pixel, and
/// one group fewer would not: each pixel is run once.
pub proof fn lemma_dispatch_covers(extent: int, group: int)
    requires
        extent > 0,
        group > 0,
    ensures
        ceil_div(extent, group) * group >= extent,
        (ceil_div(extent, group) - 1) * group < extent,
{
    let q = ceil_div(extent, group);
    assert(q * group >= extent && (q - 1) * group < extent) by (nonlinear_arith)
        requires q == (extent + group - 1) / group, group > 0, extent > 0;
}

/// The host side of the frame loop: the phase, the size the surface is
/// configured with, and the size of the compute output image.
#[derive(Debug, Clone, Copy, PartialEq, Eq, Structural)]
pub struct FrameOrchestrator {
    pub phase: FramePhase,
    pub surface: SurfaceSize,
    pub image: SurfaceSize,
}

/// Both dimensions are non-zero: a surface can be configured with it.
pub open spec fn configurable(size: SurfaceSize) -> bool {
    size.width > 0 && size.height > 0
}

impl FrameOrchestrator {
    /// The next state and the action for `event`.
    pub open spec fn spec_step(self, event: FrameEvent) -> (FrameOrchestrator, FrameAction) {
        let idle = FrameOrchestrator { phase: FramePhase::Idle, ..self };
        match (self.phase, event) {
            (FramePhase::Stopped, _) => (self, FrameAction::Nothing),
            (_, FrameEvent::CloseRequested) => (
                FrameOrchestrator { phase: FramePhase::Stopped, ..self },
                FrameAction::Exit,
            ),
            (FramePhase::Idle, FrameEvent::RedrawRequested) => (
                FrameOrchestrator { phase: FramePhase::Updating, ..self },
                FrameAction::UpdateHostState,
            ),
            (FramePhase::Idle, FrameEvent::Resized(size)) => if configurable(size) {
                (
                    FrameOrchestrator { phase: FramePhase::Reconfiguring, surface: size, ..self },
                    FrameAction::ConfigureSurface(size),
                )
            } else {
                (self, FrameAction::Nothing)
            },
            (FramePhase::Updating, FrameEvent::StepDone) => (
                FrameOrchestrator { phase: FramePhase::Dispatching, ..self },
                FrameAction::DispatchCompute {
                    groups_x: ceil_div(self.image.width as int, WORKGROUP_SIZE_X as int) as u32,
                    groups_y: ceil_div(self.image.height as int, WORKGROUP_SIZE_Y as int) as u32,
                },
            ),
            (FramePhase::Dispatching, FrameEvent::StepDone) => (
                FrameOrchestrator { phase: FramePhase::Presenting, ..self },
                FrameAction::RenderAndPresent,
            ),
            (FramePhase::Presenting, FrameEvent::PresentFinished(outcome)) => match outcome {
                PresentOutcome::Presented => (idle, FrameAction::Nothing),
                PresentOutcome::Lost => if configurable(self.surface) {
                    (
                        FrameOrchestrator { phase: FramePhase::Reconfiguring, ..self },
                        FrameAction::ConfigureSurface(self.surface),
                    )
                } else {
                    (idle, FrameAction::SkipFrame(outcome))
                },
                PresentOutcome::OutOfMemory => (
                    FrameOrchestrator { phase: FramePhase::Stopped, ..self },
                    FrameAction::Exit,
                ),
                _ => (idle, FrameAction::SkipFrame(outcome)),
            },
            (FramePhase::Reconfiguring, FrameEvent::StepDone) => (idle, FrameAction::Nothing),
            _ => (self, FrameAction::Nothing),
        }
    }

    /// An idle loop over a surface and an output image of `size`.
    pub fn new(size: SurfaceSize) -> (r: Self)
        ensures
            r.phase == FramePhase::Idle,
            r.surface == size,
            r.image == size,
    {
        FrameOrchestrator { phase: FramePhase::Idle, surface: size, image: size }
    }

    /// Moves to the next state for `event` and says what to do.
    pub fn step(&mut self, event: FrameEvent) -> (r: FrameAction)
        ensures
            (*final(self), r) == old(self).spec_step(event),
    {
        if self.phase == FramePhase::Stopped {
            return FrameAction::Nothing;
        }
        if event == FrameEvent::CloseRequested {
            self.phase = FramePhase::Stopped;
            return FrameAction::Exit;
        }
        match (self.phase, event) {
            (FramePhase::Idle, FrameEvent::RedrawRequested) => {
                self.phase = FramePhase::Updating;
                FrameAction::UpdateHostState
            },
            (FramePhase::Idle, FrameEvent::Resized(size)) => {
                if size.width > 0 && size.height > 0 {
                    self.phase = FramePhase::Reconfiguring;
                    self.surface = size;
                    FrameAction::ConfigureSurface(size)
                } else {
                    FrameAction::Nothing
                }
            },
            (FramePhase::Updating, FrameEvent::StepDone) => {
                self.phase = FramePhase::Dispatching;
                let (groups_x, groups_y) = dispatch_size(self.image);
                FrameAction::DispatchCompute { groups_x, groups_y }
            },
            (FramePhase::Dispatching, FrameEvent::StepDone) => {
                self.phase = FramePhase::Presenting;
                FrameAction::RenderAndPresent
            },
            (FramePhase::Presenting, FrameEvent::PresentFinished(outcome)) => match outcome {
                PresentOutcome::Presented => {
                    self.phase = FramePhase::Idle;
                    FrameAction::Nothing
                },
                PresentOutcome::Lost => {
                    if self.surface.width > 0 && self.surface.height > 0 {
                        self.phase = FramePhase::Reconfiguring;
                        FrameAction::ConfigureSurface(self.surface)
                    } else {
                        self.phase = FramePhase::Idle;
                        FrameAction::SkipFrame(outcome)
                    }
                },
                PresentOutcome::OutOfMemory => {
                    self.phase = FramePhase::Stopped;
                    FrameAction::Exit
                },
                _ => {
                    self.phase = FramePhase::Idle;
                    FrameAction::SkipFrame(outcome)
                },
            },
            (FramePhase::Reconfiguring, FrameEvent::StepDone) => {
                self.phase = FramePhase::Idle;
                FrameAction::Nothing
            },
            _ => FrameAction::Nothing,
        }
    }
}

/// A resize to a size with a zero dimension changes nothing: the configured
/// size stays and no reconfiguration is asked for.
pub proof fn lemma_resize_to_zero_is_noop(o: FrameOrchestrator, size: SurfaceSize)
    requires
        size.width == 0 || size.height == 0,
    ensures
        o.spec_step(FrameEvent::Resized(size)).0.surface == o.surface,
        o.spec_step(FrameEvent::Resized(size)).0.phase == o.phase,
        o.spec_step(FrameEvent::Resized(size)).1 == FrameAction::Nothing,
{
}

/// From idle, a redraw runs update, dispatch, render-and-present in this
/// order and, once the image is presented, is idle again with the same
/// sizes.
pub proof fn lemma_frame_cycle(o: FrameOrchestrator)
    requires
        o.phase == FramePhase::Idle,
    ensures
        ({
            let (o1, a1) = o.spec_step(FrameEvent::RedrawRequested);
            let (o2, a2) = o1.spec_step(FrameEvent::StepDone);
            let (o3, a3) = o2.spec_step(FrameEvent::StepDone);
            let (o4, a4) = o3.spec_step(FrameEvent::PresentFinished(PresentOutcome::Presented));
            &&& a1 == FrameAction::UpdateHostState
            &&& a2 == (FrameAction::DispatchCompute {
                groups_x: ceil_div(o.image.width as int, WORKGROUP_SIZE_X as int) as u32,
                groups_y: ceil_div(o.image.height as int, WORKGROUP_SIZE_Y as int) as u32,
            })
            &&& a3 == FrameAction::RenderAndPresent
            &&& a4 == FrameAction::Nothing
            &&& o4 == o
        }),
{
}

/// Once stopped, the loop stays stopped and asks for nothing.
pub proof fn lemma_stopped_is_final(o: FrameOrchestrator, event: FrameEvent)
    requires
        o.phase == FramePhase::Stopped,
    ensures
        o.spec_step(event) == (o, FrameAction::Nothing),
{
}

} // verus!
