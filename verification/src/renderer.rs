//! The frame driver: one record of everything a frame depends on, and the
//! rule by which it moves from one step of a tick to the next.
//!
//! The driver performs no I/O. Its caller hands it an [`Event`], carries out
//! the [`Action`] it answers with, and reports back with the next event.

use vstd::prelude::*;
use crate::camera::{AspectRatio, PerspectiveCamera};
use crate::frame::{
    blit_pass, blit_pass_spec, scene_pass, scene_pass_spec, upload_plan, upload_plan_spec,
    RenderPass, UploadPlan,
};
use crate::instances::{animated, InstancePose, InstancePoses};
use crate::surface::{ColorFormat, Extent, PresentMode, SurfaceConfig};
use crate::targets::{derived_targets, DerivedTargets};
use crate::xr::{FrameSource, FrameState, XrError};

verus! {

/// Why the surface handed out no frame.
#[derive(Clone, Copy, Debug, PartialEq, Eq, Structural)]
pub enum AcquireError {
    /// No frame became free in time.
    Timeout,
    /// The surface no longer fits the window.
    Outdated,
    /// The surface was lost.
    Lost,
    /// The device is out of memory.
    OutOfMemory,
}

/// What to do when the surface hands out no frame.
#[derive(Clone, Copy, Debug, PartialEq, Eq, Structural)]
pub enum AcquirePolicy {
    /// Every failure is fatal.
    Strict,
    /// An outdated or lost surface is reconfigured and asked once more, a
    /// timeout costs the tick, and only running out of memory, or failing
    /// again after the retry, is fatal.
    Recover,
}

/// The answer to one failed acquisition.
#[derive(Clone, Copy, Debug, PartialEq, Eq, Structural)]
pub enum AcquireDecision {
    /// Reconfigure the surface and ask again.
    Retry,
    /// Draw nothing this tick.
    SkipTick,
    /// Give up.
    Fatal,
}

/// An error after which no frame can be shown.
#[derive(Clone, Copy, Debug, PartialEq, Eq, Structural)]
pub enum FatalError {
    FrameAcquisition(AcquireError),
    XrSessionLost,
}

/// Where in its cycle the driver stands. Each phase but `Idle`, `Failed` and
/// `Closed` names the action that is being carried out.
#[derive(Clone, Copy, Debug, PartialEq, Eq, Structural)]
pub enum Phase {
    /// Between ticks.
    Idle,
    /// The surface is being configured and the derived resources created.
    Rebuilding,
    /// The stereo runtime is being asked for a frame.
    XrPreFrame,
    /// The camera and instance buffers are being written.
    Uploading,
    /// The surface is being asked for a frame; `retried` once it has been
    /// reconfigured and asked again.
    Acquiring { retried: bool },
    /// The scene pass is being recorded.
    RecordScene,
    /// The blit pass is being recorded.
    RecordBlit,
    /// The commands are being submitted.
    Submitted,
    /// The frame is being presented.
    Presented,
    /// The frame is being handed back to the stereo runtime.
    XrPostFrame,
    /// A fatal error occurred.
    Failed(FatalError),
    /// The window was closed.
    Closed,
}

/// What happened outside the driver.
#[derive(Clone, Copy, Debug)]
pub enum Event<S> {
    /// The window's drawable size changed.
    Resized(Extent),
    /// A frame is due. `eye_z` is where the camera's eye now stands on the z
    /// axis and `rotation` how the first instance is now turned.
    RedrawRequested { eye_z: S, rotation: [S; 4] },
    /// The window is closing.
    CloseRequested,
    /// The action in progress was carried out.
    Completed,
    /// The stereo runtime answered: with its prediction for a frame, or
    /// with none when it has no frame to offer.
    XrFrameBegun(Option<FrameState>),
    /// The surface handed out a frame.
    FrameAcquired,
    /// The surface handed out no frame.
    AcquireFailed(AcquireError),
    /// The stereo runtime took the frame back.
    XrFrameEnded,
    /// The stereo runtime failed to take the frame back.
    XrFrameFailed(XrError),
}

/// The resize protocol's outside work, in the order in which it is carried
/// out: configure the surface with `config`; create the depth buffer, then
/// the color target of `targets`; create the bind group of `targets`.
#[derive(Clone, Copy, Debug, PartialEq, Eq, Structural)]
pub struct RebuildPlan {
    pub config: SurfaceConfig,
    pub targets: DerivedTargets,
}

/// What the caller is to do next.
#[derive(Clone, Copy, Debug, PartialEq, Eq, Structural)]
pub enum Action {
    /// Nothing; wait for the next event.
    Wait,
    /// Carry out the plan, then report `Completed`.
    Rebuild(RebuildPlan),
    /// Ask the stereo runtime for a frame, then report `XrFrameBegun`.
    BeginXrFrame,
    /// Write the camera and instance buffers, then report `Completed`.
    Upload(UploadPlan),
    /// Ask the surface for a frame, then report `FrameAcquired` or
    /// `AcquireFailed`.
    Acquire,
    /// Configure the surface anew, ask it for a frame, then report
    /// `FrameAcquired` or `AcquireFailed`.
    ReconfigureAndAcquire(SurfaceConfig),
    /// Record the scene pass, then report `Completed`.
    RecordScene(RenderPass),
    /// Record the blit pass, then report `Completed`.
    RecordBlit(RenderPass),
    /// Submit the recorded commands, then report `Completed`.
    Submit,
    /// Present the acquired frame, then report `Completed`.
    Present,
    /// Hand the frame back to the stereo runtime, then report
    /// `XrFrameEnded` or `XrFrameFailed`.
    EndXrFrame(FrameState),
    /// Stop with this error.
    Abort(FatalError),
    /// Leave the event loop.
    Exit,
}

/// What to do about `error`, under `policy`, when the surface has or has
/// not been asked before in this tick.
pub open spec fn acquire_decision_spec(
    policy: AcquirePolicy,
    error: AcquireError,
    retried: bool,
) -> AcquireDecision {
    match policy {
        AcquirePolicy::Strict => AcquireDecision::Fatal,
        AcquirePolicy::Recover => match error {
            AcquireError::Timeout => AcquireDecision::SkipTick,
            AcquireError::OutOfMemory => AcquireDecision::Fatal,
            AcquireError::Outdated | AcquireError::Lost => if retried {
                AcquireDecision::Fatal
            } else {
                AcquireDecision::Retry
            },
        },
    }
}

/// What to do about `error`, under `policy`, when the surface has or has
/// not been asked before in this tick.
pub fn acquire_decision(policy: AcquirePolicy, error: AcquireError, retried: bool) -> (decision:
    AcquireDecision)
    ensures
        decision == acquire_decision_spec(policy, error, retried),
{
    match policy {
        AcquirePolicy::Strict => AcquireDecision::Fatal,
        AcquirePolicy::Recover => match error {
            AcquireError::Timeout => AcquireDecision::SkipTick,
            AcquireError::OutOfMemory => AcquireDecision::Fatal,
            AcquireError::Outdated | AcquireError::Lost => if retried {
                AcquireDecision::Fatal
            } else {
                AcquireDecision::Retry
            },
        },
    }
}

impl FatalError {
    /// The message with which the process ends on this error.
    pub open spec fn message_spec(self) -> Seq<char> {
        match self {
            FatalError::FrameAcquisition(_) => "Failed to acquire next swap chain texture"@,
            FatalError::XrSessionLost => "The XR session was lost"@,
        }
    }

    /// The message with which the process ends on this error.
    pub fn message(self) -> (message: &'static str)
        ensures
            message@ == self.message_spec(),
    {
        match self {
            FatalError::FrameAcquisition(_) => "Failed to acquire next swap chain texture",
            FatalError::XrSessionLost => "The XR session was lost",
        }
    }
}

/// The generation after `generation`: the next number, and 0 after the
/// largest. It differs from `generation`.
pub open spec fn next_generation(generation: u64) -> u64 {
    if generation == u64::MAX {
        0
    } else {
        (generation + 1) as u64
    }
}

/// The generation after `generation`.
pub fn generation_after(generation: u64) -> (next: u64)
    ensures
        next == next_generation(generation),
        next != generation,
{
    if generation == u64::MAX {
        0
    } else {
        generation + 1
    }
}

/// The driver's state as a mathematical value.
pub struct RendererModel<S> {
    pub config: SurfaceConfig,
    pub targets: DerivedTargets,
    pub generation: u64,
    pub camera: PerspectiveCamera<S>,
    pub instances: Seq<InstancePose<S>>,
    pub source: FrameSource,
    pub policy: AcquirePolicy,
    pub phase: Phase,
    pub pending_resize: Option<Extent>,
    pub xr_frame: Option<FrameState>,
}

impl<S> RendererModel<S> {
    /// What holds of every state the driver is ever in: the derived
    /// resources are those of the current generation for the configured
    /// size and format, the camera has the configured size's aspect ratio,
    /// one draw call covers the instances, no stereo frame is asked for or
    /// open unless frames go to a stereo runtime, and none is open outside
    /// the part of a tick that renders.
    pub open spec fn consistent(self) -> bool {
        &&& self.targets == derived_targets(
            self.config.size(),
            self.config.color_format,
            self.generation,
        )
        &&& self.camera.aspect_ratio == AspectRatio::of(self.config.size())
        &&& self.instances.len() <= u32::MAX
        &&& (self.source is PlainSurface ==> self.xr_frame is None)
        &&& (self.source is PlainSurface ==> !(self.phase is XrPreFrame))
        &&& (self.source is PlainSurface ==> !(self.phase is XrPostFrame))
        &&& (self.phase is Idle || self.phase is Rebuilding || self.phase is XrPreFrame
            || self.phase is XrPostFrame) ==> self.xr_frame is None
    }

    /// The state a new driver starts in: the surface and generation 0 of
    /// the derived resources are about to be created for `size`.
    pub open spec fn initial(
        size: Extent,
        color_format: ColorFormat,
        camera: PerspectiveCamera<S>,
        instances: Seq<InstancePose<S>>,
        source: FrameSource,
        policy: AcquirePolicy,
    ) -> RendererModel<S> {
        RendererModel {
            config: SurfaceConfig {
                width: size.width,
                height: size.height,
                color_format,
                present_mode: PresentMode::Immediate,
            },
            targets: derived_targets(size, color_format, 0),
            generation: 0,
            camera: PerspectiveCamera { aspect_ratio: AspectRatio::of(size), ..camera },
            instances,
            source,
            policy,
            phase: Phase::Rebuilding,
            pending_resize: None,
            xr_frame: None,
        }
    }

    /// The number of instances, as a draw call takes it.
    pub open spec fn instance_count(self) -> u32 {
        self.instances.len() as u32
    }

    /// This state in another phase.
    pub open spec fn in_phase(self, phase: Phase) -> RendererModel<S> {
        RendererModel { phase, ..self }
    }

    /// The outside work that brings the GPU in line with this state.
    pub open spec fn rebuild_plan(self) -> RebuildPlan {
        RebuildPlan { config: self.config, targets: self.targets }
    }

    /// The resize protocol applied to this state: the surface takes the new
    /// size, a new generation of derived resources replaces the old one as
    /// a whole, and the camera takes the new aspect ratio.
    pub open spec fn resized(self, size: Extent) -> RendererModel<S> {
        let config = self.config.with_size(size.width, size.height);
        let generation = next_generation(self.generation);
        RendererModel {
            config,
            generation,
            targets: derived_targets(size, config.color_format, generation),
            camera: self.camera.with_aspect_ratio(AspectRatio::of(size)),
            phase: Phase::Rebuilding,
            pending_resize: None,
            ..self
        }
    }

    /// The step that starts the resize protocol for `size`.
    pub open spec fn rebuilt(self, size: Extent) -> (RendererModel<S>, Action) {
        (self.resized(size), Action::Rebuild(self.resized(size).rebuild_plan()))
    }

    /// The step that ends a tick or a rebuild: a resize that arrived
    /// meanwhile is carried out now, else the driver goes idle.
    pub open spec fn settled(self) -> (RendererModel<S>, Action) {
        match self.pending_resize {
            Some(size) => self.rebuilt(size),
            None => (self.in_phase(Phase::Idle), Action::Wait),
        }
    }

    /// The step that ends a tick's rendering: an open stereo frame is
    /// handed back first.
    pub open spec fn finished(self) -> (RendererModel<S>, Action) {
        match self.xr_frame {
            Some(frame) => (
                RendererModel { phase: Phase::XrPostFrame, xr_frame: None, ..self },
                Action::EndXrFrame(frame),
            ),
            None => self.settled(),
        }
    }

    /// This state with the camera's eye moved to `eye_z` and the first
    /// instance turned to `rotation`.
    pub open spec fn moved(self, eye_z: S, rotation: [S; 4]) -> RendererModel<S> {
        RendererModel {
            camera: self.camera.with_eye_z(eye_z),
            instances: animated(self.instances, rotation),
            ..self
        }
    }

    /// The step that starts the buffer writes.
    pub open spec fn uploading(self) -> (RendererModel<S>, Action) {
        (self.in_phase(Phase::Uploading), Action::Upload(upload_plan_spec(self.instance_count())))
    }

    /// The step that starts a tick: a stereo runtime is asked for a frame
    /// first, a plain surface goes straight to the buffer writes.
    pub open spec fn begun(self) -> (RendererModel<S>, Action) {
        match self.source {
            FrameSource::PlainSurface => self.uploading(),
            FrameSource::StereoXrSurface => (
                self.in_phase(Phase::XrPreFrame),
                Action::BeginXrFrame,
            ),
        }
    }

    /// The step that answers a failed acquisition.
    pub open spec fn acquire_failed(self, error: AcquireError, retried: bool) -> (
        RendererModel<S>,
        Action,
    ) {
        match acquire_decision_spec(self.policy, error, retried) {
            AcquireDecision::Retry => (
                self.in_phase(Phase::Acquiring { retried: true }),
                Action::ReconfigureAndAcquire(self.config),
            ),
            AcquireDecision::SkipTick => self.finished(),
            AcquireDecision::Fatal => (
                self.in_phase(Phase::Failed(FatalError::FrameAcquisition(error))),
                Action::Abort(FatalError::FrameAcquisition(error)),
            ),
        }
    }

    /// The step of a tick: what `event` leads to in the phase the driver is
    /// in. An event that the phase does not wait for changes nothing.
    pub open spec fn tick_step(self, event: Event<S>) -> (RendererModel<S>, Action) {
        match (self.phase, event) {
            (Phase::Idle, Event::RedrawRequested { eye_z, rotation }) => self.moved(
                eye_z,
                rotation,
            ).begun(),
            (Phase::Rebuilding, Event::Completed) => self.settled(),
            (Phase::XrPreFrame, Event::XrFrameBegun(None)) => self.settled(),
            (Phase::XrPreFrame, Event::XrFrameBegun(Some(frame))) => (RendererModel {
                xr_frame: Some(frame),
                ..self
            }).uploading(),
            (Phase::Uploading, Event::Completed) => (
                self.in_phase(Phase::Acquiring { retried: false }),
                Action::Acquire,
            ),
            (Phase::Acquiring { .. }, Event::FrameAcquired) => (
                self.in_phase(Phase::RecordScene),
                Action::RecordScene(scene_pass_spec(self.targets, self.instance_count())),
            ),
            (Phase::Acquiring { retried }, Event::AcquireFailed(error)) => self.acquire_failed(
                error,
                retried,
            ),
            (Phase::RecordScene, Event::Completed) => (
                self.in_phase(Phase::RecordBlit),
                Action::RecordBlit(blit_pass_spec(self.targets)),
            ),
            (Phase::RecordBlit, Event::Completed) => (
                self.in_phase(Phase::Submitted),
                Action::Submit,
            ),
            (Phase::Submitted, Event::Completed) => (
                self.in_phase(Phase::Presented),
                Action::Present,
            ),
            (Phase::Presented, Event::Completed) => self.finished(),
            (Phase::XrPostFrame, Event::XrFrameEnded) => self.settled(),
            (Phase::XrPostFrame, Event::XrFrameFailed(XrError::Transient)) => self.settled(),
            (Phase::XrPostFrame, Event::XrFrameFailed(XrError::SessionLost)) => (
                self.in_phase(Phase::Failed(FatalError::XrSessionLost)),
                Action::Abort(FatalError::XrSessionLost),
            ),
            _ => (self, Action::Wait),
        }
    }

    /// The driver's rule: the state and the action that `event` leads to.
    ///
    /// A closed driver stays closed, and closing wins over everything else.
    /// A failed driver stays failed. A resize is carried out at once between
    /// ticks, and else remembered until the work in progress has ended.
    pub open spec fn step(self, event: Event<S>) -> (RendererModel<S>, Action) {
        match (self.phase, event) {
            (Phase::Closed, _) => (self, Action::Exit),
            (_, Event::CloseRequested) => (self.in_phase(Phase::Closed), Action::Exit),
            (Phase::Failed(error), _) => (self, Action::Abort(error)),
            (Phase::Idle, Event::Resized(size)) => self.rebuilt(size),
            (_, Event::Resized(size)) => (
                RendererModel { pending_resize: Some(size), ..self },
                Action::Wait,
            ),
            _ => self.tick_step(event),
        }
    }
}

/// Everything of the driver's state but the instances. It is replaced as
/// a whole at every step.
#[derive(Clone, Copy)]
struct Core<S> {
    config: SurfaceConfig,
    targets: DerivedTargets,
    generation: u64,
    camera: PerspectiveCamera<S>,
    source: FrameSource,
    policy: AcquirePolicy,
    phase: Phase,
    pending_resize: Option<Extent>,
    xr_frame: Option<FrameState>,
}

impl<S> Core<S> {
    /// The model that this core stands for together with `instances`.
    spec fn model(self, instances: Seq<InstancePose<S>>) -> RendererModel<S> {
        RendererModel {
            config: self.config,
            targets: self.targets,
            generation: self.generation,
            camera: self.camera,
            instances,
            source: self.source,
            policy: self.policy,
            phase: self.phase,
            pending_resize: self.pending_resize,
            xr_frame: self.xr_frame,
        }
    }
}

impl<S: Copy> Core<S> {
    fn in_phase(self, phase: Phase) -> (core: Core<S>)
        ensures
            forall|instances: Seq<InstancePose<S>>|
                #[trigger] core.model(instances) == self.model(instances).in_phase(phase),
    {
        Core { phase, ..self }
    }

    fn rebuilt(self, size: Extent, Ghost(instances): Ghost<Seq<InstancePose<S>>>) -> (next: (
        Core<S>,
        Action,
    ))
        ensures
            (next.0.model(instances), next.1) == self.model(instances).rebuilt(size),
    {
        let generation: u64 = generation_after(self.generation);
        let mut config = self.config;
        config.configure(size.width, size.height);
        let targets = DerivedTargets::rebuild(&config, generation);
        let mut camera = self.camera;
        camera.set_aspect_ratio(size);
        let core = Core {
            config,
            generation,
            targets,
            camera,
            phase: Phase::Rebuilding,
            pending_resize: None,
            ..self
        };
        (core, Action::Rebuild(RebuildPlan { config, targets }))
    }

    fn settled(self, Ghost(instances): Ghost<Seq<InstancePose<S>>>) -> (next: (Core<S>, Action))
        ensures
            (next.0.model(instances), next.1) == self.model(instances).settled(),
    {
        match self.pending_resize {
            Some(size) => self.rebuilt(size, Ghost(instances)),
            None => (self.in_phase(Phase::Idle), Action::Wait),
        }
    }

    fn finished(self, Ghost(instances): Ghost<Seq<InstancePose<S>>>) -> (next: (Core<S>, Action))
        ensures
            (next.0.model(instances), next.1) == self.model(instances).finished(),
    {
        match self.xr_frame {
            Some(frame) => (
                Core { phase: Phase::XrPostFrame, xr_frame: None, ..self },
                Action::EndXrFrame(frame),
            ),
            None => self.settled(Ghost(instances)),
        }
    }

    fn uploading(self, count: u32, Ghost(instances): Ghost<Seq<InstancePose<S>>>) -> (next: (
        Core<S>,
        Action,
    ))
        requires
            count == instances.len(),
        ensures
            (next.0.model(instances), next.1) == self.model(instances).uploading(),
    {
        (self.in_phase(Phase::Uploading), Action::Upload(upload_plan(count)))
    }

    fn acquire_failed(
        self,
        error: AcquireError,
        retried: bool,
        Ghost(instances): Ghost<Seq<InstancePose<S>>>,
    ) -> (next: (Core<S>, Action))
        ensures
            (next.0.model(instances), next.1) == self.model(instances).acquire_failed(
                error,
                retried,
            ),
    {
        match acquire_decision(self.policy, error, retried) {
            AcquireDecision::Retry => (
                self.in_phase(Phase::Acquiring { retried: true }),
                Action::ReconfigureAndAcquire(self.config),
            ),
            AcquireDecision::SkipTick => self.finished(Ghost(instances)),
            AcquireDecision::Fatal => (
                self.in_phase(Phase::Failed(FatalError::FrameAcquisition(error))),
                Action::Abort(FatalError::FrameAcquisition(error)),
            ),
        }
    }

    /// The step for `event`, given the number of instances. `before` is the
    /// list of instances before the step; a redraw between ticks turns its
    /// first entry, which the caller does.
    fn step(self, event: Event<S>, count: u32, Ghost(before): Ghost<Seq<InstancePose<S>>>) -> (next:
        (Core<S>, Action))
        requires
            count == before.len(),
        ensures
            (next.0.model(self.model(before).step(event).0.instances), next.1) == self.model(
                before,
            ).step(event),
    {
        match (self.phase, event) {
            (Phase::Closed, _) => (self, Action::Exit),
            (_, Event::CloseRequested) => (self.in_phase(Phase::Closed), Action::Exit),
            (Phase::Failed(error), _) => (self, Action::Abort(error)),
            (Phase::Idle, Event::Resized(size)) => self.rebuilt(size, Ghost(before)),
            (_, Event::Resized(size)) => (
                Core { pending_resize: Some(size), ..self },
                Action::Wait,
            ),
            (Phase::Idle, Event::RedrawRequested { eye_z, rotation }) => {
                let mut camera = self.camera;
                camera.set_eye_z(eye_z);
                let moved = Core { camera, ..self };
                let ghost after = animated(before, rotation);
                assert(moved.model(after) == self.model(before).moved(eye_z, rotation));
                match self.source {
                    FrameSource::PlainSurface => moved.uploading(count, Ghost(after)),
                    FrameSource::StereoXrSurface => (
                        moved.in_phase(Phase::XrPreFrame),
                        Action::BeginXrFrame,
                    ),
                }
            },
            (Phase::Rebuilding, Event::Completed) => self.settled(Ghost(before)),
            (Phase::XrPreFrame, Event::XrFrameBegun(None)) => self.settled(Ghost(before)),
            (Phase::XrPreFrame, Event::XrFrameBegun(Some(frame))) => (Core {
                xr_frame: Some(frame),
                ..self
            }).uploading(count, Ghost(before)),
            (Phase::Uploading, Event::Completed) => (
                self.in_phase(Phase::Acquiring { retried: false }),
                Action::Acquire,
            ),
            (Phase::Acquiring { .. }, Event::FrameAcquired) => (
                self.in_phase(Phase::RecordScene),
                Action::RecordScene(scene_pass(&self.targets, count)),
            ),
            (Phase::Acquiring { retried }, Event::AcquireFailed(error)) => self.acquire_failed(
                error,
                retried,
                Ghost(before),
            ),
            (Phase::RecordScene, Event::Completed) => (
                self.in_phase(Phase::RecordBlit),
                Action::RecordBlit(blit_pass(&self.targets)),
            ),
            (Phase::RecordBlit, Event::Completed) => (
                self.in_phase(Phase::Submitted),
                Action::Submit,
            ),
            (Phase::Submitted, Event::Completed) => (
                self.in_phase(Phase::Presented),
                Action::Present,
            ),
            (Phase::Presented, Event::Completed) => self.finished(Ghost(before)),
            (Phase::XrPostFrame, Event::XrFrameEnded) => self.settled(Ghost(before)),
            (Phase::XrPostFrame, Event::XrFrameFailed(XrError::Transient)) => self.settled(
                Ghost(before),
            ),
            (Phase::XrPostFrame, Event::XrFrameFailed(XrError::SessionLost)) => (
                self.in_phase(Phase::Failed(FatalError::XrSessionLost)),
                Action::Abort(FatalError::XrSessionLost),
            ),
            _ => (self, Action::Wait),
        }
    }
}

/// The frame driver's state: the surface configuration, the derived
/// resources, the camera, the instances, and where in its cycle the driver
/// stands. Its view is the [`RendererModel`] it stands for, which is
/// consistent at all times.
pub struct RenderState<S> {
    core: Core<S>,
    instances: InstancePoses<S>,
}

impl<S> View for RenderState<S> {
    type V = RendererModel<S>;

    closed spec fn view(&self) -> RendererModel<S> {
        self.core.model(self.instances@)
    }
}

impl<S> RenderState<S> {
    #[verifier::type_invariant]
    spec fn always_consistent(self) -> bool {
        self@.consistent()
    }
}

impl<S: Copy> RenderState<S> {
    /// A driver for a surface of size `size` and format `color_format`. The
    /// camera takes the aspect ratio of `size`. The driver starts out
    /// rebuilding: the caller carries out the returned plan and reports
    /// `Completed` before the first tick can begin.
    pub fn new(
        size: Extent,
        color_format: ColorFormat,
        camera: PerspectiveCamera<S>,
        instances: InstancePoses<S>,
        source: FrameSource,
        policy: AcquirePolicy,
    ) -> (started: (RenderState<S>, RebuildPlan))
        ensures
            started.0@ == RendererModel::initial(
                size,
                color_format,
                camera,
                instances@,
                source,
                policy,
            ),
            started.1 == started.0@.rebuild_plan(),
            started.0@.consistent(),
    {
        let config = SurfaceConfig::new(size.width, size.height, color_format);
        let targets = DerivedTargets::rebuild(&config, 0);
        let mut camera = camera;
        camera.set_aspect_ratio(size);
        let count: u32 = instances.count();
        assert(instances@.len() == count);
        let core = Core {
            config,
            targets,
            generation: 0,
            camera,
            source,
            policy,
            phase: Phase::Rebuilding,
            pending_resize: None,
            xr_frame: None,
        };
        (RenderState { core, instances }, RebuildPlan { config, targets })
    }

    /// Where in its cycle the driver stands.
    pub fn phase(&self) -> (phase: Phase)
        ensures
            phase == self@.phase,
    {
        self.core.phase
    }

    /// The surface's configuration.
    pub fn config(&self) -> (config: SurfaceConfig)
        ensures
            config == self@.config,
    {
        self.core.config
    }

    /// The current generation of derived resources. Both targets have the
    /// configured size, and the bind group samples the color target's view.
    pub fn targets(&self) -> (targets: DerivedTargets)
        ensures
            targets == self@.targets,
            targets.matches(self@.config),
    {
        proof {
            use_type_invariant(self);
        }
        self.core.targets
    }

    /// The camera. Its aspect ratio is that of the configured size.
    pub fn camera(&self) -> (camera: PerspectiveCamera<S>)
        ensures
            camera == self@.camera,
            camera.aspect_ratio == AspectRatio::of(self@.config.size()),
    {
        proof {
            use_type_invariant(self);
        }
        self.core.camera
    }

    /// The instances, in draw order.
    pub fn instances(&self) -> (instances: &InstancePoses<S>)
        ensures
            instances@ == self@.instances,
    {
        &self.instances
    }

    /// The number of instances that the scene pass draws.
    pub fn instance_count(&self) -> (count: u32)
        ensures
            count == self@.instances.len(),
    {
        self.instances.count()
    }

    /// Where frames go.
    pub fn source(&self) -> (source: FrameSource)
        ensures
            source == self@.source,
    {
        self.core.source
    }

    /// What the driver does when the surface hands out no frame.
    pub fn policy(&self) -> (policy: AcquirePolicy)
        ensures
            policy == self@.policy,
    {
        self.core.policy
    }

    /// The size of a resize that arrived during the work in progress and
    /// has not been carried out yet.
    pub fn pending_resize(&self) -> (pending: Option<Extent>)
        ensures
            pending == self@.pending_resize,
    {
        self.core.pending_resize
    }

    /// Takes the driver from one step to the next: updates the state as
    /// `event` demands and returns what the caller is to do now.
    pub fn step(&mut self, event: Event<S>) -> (action: Action)
        ensures
            (final(self)@, action) == old(self)@.step(event),
            old(self)@.consistent(),
            final(self)@.consistent(),
    {
        proof {
            use_type_invariant(&*self);
            lemma_step_keeps_consistent(self@, event);
        }
        let ghost before = self.instances@;
        let count: u32 = self.instances.count();
        let (core, action) = self.core.step(event, count, Ghost(before));
        match (self.core.phase, event) {
            (Phase::Idle, Event::RedrawRequested { eye_z, rotation }) => {
                self.instances.animate(rotation);
            },
            _ => {},
        }
        self.core = core;
        action
    }
}

/// Every step keeps the state consistent.
pub proof fn lemma_step_keeps_consistent<S>(state: RendererModel<S>, event: Event<S>)
    requires
        state.consistent(),
    ensures
        state.step(event).0.consistent(),
{
}

} // verus!
