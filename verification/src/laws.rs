//! What holds of the frame driver in every state and over whole ticks.

use vstd::prelude::*;
use crate::camera::{AspectRatio, PerspectiveCamera};
use crate::frame::{blit_pass_spec, scene_pass_spec, upload_plan_spec, BindGroup, ColorTarget};
use crate::instances::InstancePose;
use crate::renderer::{
    AcquireError, AcquirePolicy, Action, Event, FatalError, Phase, RebuildPlan, RendererModel,
};
use crate::surface::{ColorFormat, Extent};
use crate::xr::{FrameSource, FrameState};

verus! {

/// One step of the driver. It is the driver's rule under another name, kept
/// folded so that statements about whole runs do not unfold every step;
/// `reveal(step_once)` shows that it is `state.step(event)`.
#[verifier::opaque]
pub open spec fn step_once<S>(state: RendererModel<S>, event: Event<S>) -> (
    RendererModel<S>,
    Action,
) {
    state.step(event)
}

/// The states and actions that a run of events leads through: the state at
/// the end, and the actions in the order in which they were answered.
pub open spec fn run<S>(state: RendererModel<S>, events: Seq<Event<S>>) -> (
    RendererModel<S>,
    Seq<Action>,
)
    decreases events.len(),
{
    if events.len() == 0 {
        (state, Seq::empty())
    } else {
        let (last, actions) = run(state, events.drop_last());
        let (next, action) = step_once(last, events.last());
        (next, actions.push(action))
    }
}

/// Whether the driver may go from phase `from` to the different phase `to`
/// in one step.
pub open spec fn follows(from: Phase, to: Phase) -> bool {
    match to {
        Phase::Idle => from is Rebuilding || from is XrPreFrame || from is Acquiring
            || from is Presented || from is XrPostFrame,
        Phase::Rebuilding => !(from is Closed) && !(from is Failed) && !(from is Uploading)
            && !(from is RecordScene) && !(from is RecordBlit) && !(from is Submitted),
        Phase::XrPreFrame => from is Idle,
        Phase::Uploading => from is Idle || from is XrPreFrame,
        Phase::Acquiring { retried } => from is Uploading || (retried && from is Acquiring),
        Phase::RecordScene => from is Acquiring,
        Phase::RecordBlit => from is RecordScene,
        Phase::Submitted => from is RecordBlit,
        Phase::Presented => from is Submitted,
        Phase::XrPostFrame => from is Presented || from is Acquiring,
        Phase::Failed(_) => from is Acquiring || from is XrPostFrame,
        Phase::Closed => true,
    }
}

/// A new driver configures the surface before anything else: it starts out
/// rebuilding for the size it was made with, a redraw meanwhile starts no
/// tick, and it is idle once the rebuild is reported done.
pub proof fn lemma_configured_before_first_frame<S>(
    size: Extent,
    color_format: ColorFormat,
    camera: PerspectiveCamera<S>,
    instances: Seq<InstancePose<S>>,
    source: FrameSource,
    policy: AcquirePolicy,
    eye_z: S,
    rotation: [S; 4],
)
    requires
        instances.len() <= u32::MAX,
    ensures
        ({
            let start = RendererModel::initial(
                size,
                color_format,
                camera,
                instances,
                source,
                policy,
            );
            &&& start.consistent()
            &&& start.phase is Rebuilding
            &&& start.rebuild_plan().config.size() == size
            &&& start.rebuild_plan().config.color_format == color_format
            &&& start.rebuild_plan().config.present_mode is Immediate
            &&& start.rebuild_plan().targets.matches(start.rebuild_plan().config)
            &&& start.camera.aspect_ratio == AspectRatio::of(size)
            &&& start.step(Event::RedrawRequested { eye_z, rotation }) == (start, Action::Wait)
            &&& start.step(Event::Completed) == (start.in_phase(Phase::Idle), Action::Wait)
        }),
{
}

/// A resize between ticks replaces everything that depends on the size, at
/// once: the surface, the depth buffer and the offscreen target have the
/// new size; the bind group samples the new target's view, which is not the
/// old one; and the camera's aspect ratio is exactly the new width over the
/// new height. The camera is otherwise unchanged, and so are the instances.
pub proof fn lemma_resize_rebuilds_at_once<S>(state: RendererModel<S>, size: Extent)
    requires
        state.consistent(),
        state.phase is Idle,
    ensures
        ({
            let (next, action) = state.step(Event::Resized(size));
            &&& next.consistent()
            &&& next.config.size() == size
            &&& next.config.color_format == state.config.color_format
            &&& next.config.present_mode == state.config.present_mode
            &&& next.targets.depth.size() == size
            &&& next.targets.color.size() == size
            &&& next.targets.matches(next.config)
            &&& next.targets.blit_bind_group.view == next.targets.color.view
            &&& next.targets.color.view != state.targets.color.view
            &&& next.targets.depth.view != state.targets.depth.view
            &&& next.camera.aspect_ratio == AspectRatio::of(size)
            &&& size.height > 0 ==> next.camera.aspect_ratio.is_ratio(
                size.width as int,
                size.height as int,
            )
            &&& next.camera == state.camera.with_aspect_ratio(AspectRatio::of(size))
            &&& next.instances == state.instances
            &&& next.phase is Rebuilding
            &&& action == Action::Rebuild(
                RebuildPlan { config: next.config, targets: next.targets },
            )
        }),
{
}

/// A resize that arrives while work is in progress changes nothing but
/// what the driver remembers, and is carried out as soon as that work has
/// ended: the step that would have made the driver idle starts the rebuild
/// for the remembered size instead.
pub proof fn lemma_resize_waits_for_work_in_progress<S>(state: RendererModel<S>, size: Extent)
    requires
        state.consistent(),
        !(state.phase is Idle),
        !(state.phase is Closed),
        !(state.phase is Failed),
    ensures
        state.step(Event::Resized(size)) == (
            RendererModel { pending_resize: Some(size), ..state },
            Action::Wait,
        ),
        (RendererModel { pending_resize: Some(size), ..state }).settled() == (
            RendererModel { pending_resize: Some(size), ..state }
        ).rebuilt(size),
        (RendererModel { pending_resize: Some(size), ..state }).settled().0.config.size() == size,
        (RendererModel { pending_resize: Some(size), ..state }).settled().0.targets.color.size()
            == size,
        (RendererModel { pending_resize: Some(size), ..state }).settled().0.targets.depth.size()
            == size,
{
}

/// The derived resources only ever change as a whole, and only in a step
/// that starts a rebuild: no pass is recorded between the old generation
/// and the new one.
pub proof fn lemma_targets_change_only_by_rebuild<S>(state: RendererModel<S>, event: Event<S>)
    requires
        state.consistent(),
    ensures
        ({
            let (next, action) = state.step(event);
            &&& next.consistent()
            &&& next.targets.matches(next.config)
            &&& next.camera.aspect_ratio == AspectRatio::of(next.config.size())
            &&& (next.targets != state.targets || next.config != state.config) ==> (action
                is Rebuild && next.phase is Rebuilding)
            &&& action is Rebuild ==> action == Action::Rebuild(next.rebuild_plan())
        }),
{
}

/// The phases follow each other in the order of the cycle: every step
/// either leaves the phase as it is or goes to a phase that follows it. In
/// particular the blit pass is recorded only after the scene pass, the
/// commands are submitted only after the blit pass, and the frame is
/// presented only after the submission.
pub proof fn lemma_phases_in_order<S>(state: RendererModel<S>, event: Event<S>)
    requires
        state.consistent(),
    ensures
        ({
            let (next, action) = state.step(event);
            &&& next.phase == state.phase || follows(state.phase, next.phase)
            &&& action is RecordScene ==> (state.phase is Acquiring && next.phase is RecordScene)
            &&& action is RecordBlit ==> (state.phase is RecordScene && next.phase is RecordBlit)
            &&& action is Submit ==> (state.phase is RecordBlit && next.phase is Submitted)
            &&& action is Present ==> (state.phase is Submitted && next.phase is Presented)
            &&& action is Acquire ==> (state.phase is Uploading && next.phase is Acquiring)
            &&& action is ReconfigureAndAcquire ==> (state.phase is Acquiring && next.phase
                is Acquiring)
            &&& action is Upload ==> (next.phase is Uploading && (state.phase is Idle
                || state.phase is XrPreFrame))
            &&& action is BeginXrFrame ==> (state.phase is Idle && next.phase is XrPreFrame)
            &&& action is EndXrFrame ==> (next.phase is XrPostFrame && (state.phase is Presented
                || state.phase is Acquiring))
            &&& (next.phase is RecordScene && !(state.phase is RecordScene)) ==> action
                is RecordScene
            &&& (next.phase is RecordBlit && !(state.phase is RecordBlit)) ==> action is RecordBlit
            &&& (next.phase is Submitted && !(state.phase is Submitted)) ==> action is Submit
            &&& (next.phase is Presented && !(state.phase is Presented)) ==> action is Present
        }),
{
}

/// The passes are what the state says: the scene pass draws three vertices
/// for each instance of the list, so its instance count is the length of
/// the list; it writes the offscreen target that the blit pass of the same
/// state samples; and the blit pass draws six vertices once into the
/// acquired frame. The instance buffer is written in full, 64 bytes for
/// each instance.
pub proof fn lemma_draw_covers_every_instance<S>(state: RendererModel<S>, event: Event<S>)
    requires
        state.consistent(),
    ensures
        ({
            let (next, action) = state.step(event);
            &&& action matches Action::RecordScene(pass) ==> {
                &&& pass == scene_pass_spec(next.targets, next.instance_count())
                &&& pass.draw.instance_count == next.instances.len()
                &&& pass.draw.instance_count == state.instances.len()
                &&& pass.draw.vertex_count == 3
                &&& pass.color.target == ColorTarget::Offscreen(next.targets.color.view)
                &&& pass.depth is Some
                &&& pass.depth->0.view == next.targets.depth.view
            }
            &&& action matches Action::RecordBlit(pass) ==> {
                &&& pass == blit_pass_spec(next.targets)
                &&& pass.draw.vertex_count == 6
                &&& pass.draw.instance_count == 1
                &&& pass.color.target == ColorTarget::SurfaceFrame
                &&& pass.depth is None
                &&& pass.bind_group == BindGroup::Blit(next.targets.blit_bind_group)
                &&& next.targets.blit_bind_group.view == next.targets.color.view
            }
            &&& action matches Action::Upload(plan) ==> {
                &&& plan == upload_plan_spec(next.instance_count())
                &&& plan.camera.size == 64
                &&& plan.instances.size == 64 * next.instances.len()
            }
        }),
{
}

/// A redraw moves the camera's eye along z and turns the first instance,
/// and changes nothing else of either: the list keeps its length and every
/// other entry, and the first keeps its translation.
pub proof fn lemma_redraw_animates_first_instance<S>(
    state: RendererModel<S>,
    eye_z: S,
    rotation: [S; 4],
)
    requires
        state.consistent(),
        state.phase is Idle,
    ensures
        ({
            let next = state.step(Event::RedrawRequested { eye_z, rotation }).0;
            &&& next.camera == state.camera.with_eye_z(eye_z)
            &&& next.camera.aspect_ratio == state.camera.aspect_ratio
            &&& next.instances.len() == state.instances.len()
            &&& forall|i: int|
                1 <= i < state.instances.len() ==> #[trigger] next.instances[i]
                    == state.instances[i]
            &&& state.instances.len() > 0 ==> {
                &&& next.instances[0].rotation == rotation
                &&& next.instances[0].translation == state.instances[0].translation
            }
            &&& next.targets == state.targets
            &&& next.config == state.config
        }),
{
}

/// Without a frame nothing is drawn: whatever the failure and the policy,
/// the answer to a failed acquisition is never a pass, a submission or a
/// presentation. Under the recovering policy an outdated or lost surface is
/// reconfigured and asked once more, and is fatal the second time; a timeout
/// costs the tick; running out of memory is fatal. Under the strict policy
/// every failure is fatal.
pub proof fn lemma_acquire_failure<S>(state: RendererModel<S>, error: AcquireError)
    requires
        state.consistent(),
        state.phase is Acquiring,
    ensures
        ({
            let retried = state.phase->retried;
            let (next, action) = state.step(Event::AcquireFailed(error));
            &&& !(action is RecordScene)
            &&& !(action is RecordBlit)
            &&& !(action is Submit)
            &&& !(action is Present)
            &&& !(next.phase is RecordScene)
            &&& state.policy is Strict ==> {
                &&& action == Action::Abort(FatalError::FrameAcquisition(error))
                &&& next.phase == Phase::Failed(FatalError::FrameAcquisition(error))
            }
            &&& (state.policy is Recover && (error is Outdated || error is Lost) && !retried) ==> {
                &&& action == Action::ReconfigureAndAcquire(state.config)
                &&& next.phase == (Phase::Acquiring { retried: true })
            }
            &&& (state.policy is Recover && (error is Outdated || error is Lost) && retried)
                ==> action == Action::Abort(FatalError::FrameAcquisition(error))
            &&& (state.policy is Recover && error is OutOfMemory) ==> action == Action::Abort(
                FatalError::FrameAcquisition(error),
            )
            &&& (state.policy is Recover && error is Timeout) ==> {
                &&& !(action is Abort)
                &&& !(action is ReconfigureAndAcquire)
                &&& (next.phase is Idle || next.phase is Rebuilding || next.phase is XrPostFrame)
            }
        }),
{
}

/// With frames going to the plain surface, the stereo runtime is never
/// called: no step asks it for a frame or hands one back.
pub proof fn lemma_plain_surface_never_calls_xr<S>(state: RendererModel<S>, event: Event<S>)
    requires
        state.consistent(),
        state.source is PlainSurface,
    ensures
        !(state.step(event).1 is BeginXrFrame),
        !(state.step(event).1 is EndXrFrame),
        state.step(event).0.source is PlainSurface,
        state.step(event).0.xr_frame is None,
{
}

/// The events of a tick on the plain surface in which every action
/// succeeds.
pub open spec fn plain_tick_events<S>(eye_z: S, rotation: [S; 4]) -> Seq<Event<S>> {
    seq![
        Event::RedrawRequested { eye_z, rotation },
        Event::Completed,
        Event::FrameAcquired,
        Event::Completed,
        Event::Completed,
        Event::Completed,
        Event::Completed,
    ]
}

/// The actions of a tick that renders, from the buffer writes to the
/// presentation, for the resources and instances of `state`.
pub open spec fn render_actions<S>(state: RendererModel<S>) -> Seq<Action> {
    seq![
        Action::Upload(upload_plan_spec(state.instance_count())),
        Action::Acquire,
        Action::RecordScene(scene_pass_spec(state.targets, state.instance_count())),
        Action::RecordBlit(blit_pass_spec(state.targets)),
        Action::Submit,
        Action::Present,
    ]
}

/// A tick on the plain surface is the buffer writes, the acquisition, the
/// scene pass, the blit pass, one submission and the presentation, in this
/// order and each once; then the driver is idle again, with the same
/// resources.
pub proof fn lemma_plain_tick<S>(state: RendererModel<S>, eye_z: S, rotation: [S; 4])
    requires
        state.consistent(),
        state.phase is Idle,
        state.source is PlainSurface,
        state.pending_resize is None,
    ensures
        ({
            let moved = state.moved(eye_z, rotation);
            let (end, actions) = run(state, plain_tick_events(eye_z, rotation));
            &&& actions == render_actions(moved).push(Action::Wait)
            &&& end == moved
        }),
{
    let moved = state.moved(eye_z, rotation);
    let none = Seq::<Event<S>>::empty();
    let e1 = none.push(Event::RedrawRequested { eye_z, rotation });
    let e2 = e1.push(Event::Completed);
    let e3 = e2.push(Event::FrameAcquired);
    let e4 = e3.push(Event::Completed);
    let e5 = e4.push(Event::Completed);
    let e6 = e5.push(Event::Completed);
    let e7 = e6.push(Event::Completed);
    lemma_first_step_plain(state, eye_z, rotation);
    lemma_render_steps(moved);
    assert(moved.in_phase(Phase::Idle) == moved);
    lemma_run_push(state, none, Event::RedrawRequested { eye_z, rotation });
    assert(run(state, e1).0 == moved.in_phase(Phase::Uploading));
    lemma_run_push(state, e1, Event::Completed);
    assert(run(state, e2).0 == moved.in_phase(Phase::Acquiring { retried: false }));
    lemma_run_push(state, e2, Event::FrameAcquired);
    assert(run(state, e3).0 == moved.in_phase(Phase::RecordScene));
    lemma_run_push(state, e3, Event::Completed);
    assert(run(state, e4).0 == moved.in_phase(Phase::RecordBlit));
    lemma_run_push(state, e4, Event::Completed);
    assert(run(state, e5).0 == moved.in_phase(Phase::Submitted));
    lemma_run_push(state, e5, Event::Completed);
    assert(run(state, e6).0 == moved.in_phase(Phase::Presented));
    lemma_run_push(state, e6, Event::Completed);
    assert(run(state, e7).0 == moved);
    assert(e7 =~= plain_tick_events(eye_z, rotation));
    assert(run(state, e7).1 =~= render_actions(moved).push(Action::Wait));
}

/// A run that is longer by one event is the shorter run followed by the
/// step for that event.
proof fn lemma_run_push<S>(state: RendererModel<S>, events: Seq<Event<S>>, event: Event<S>)
    ensures
        run(state, events.push(event)) == (
            step_once(run(state, events).0, event).0,
            run(state, events).1.push(step_once(run(state, events).0, event).1),
        ),
        run(state, Seq::<Event<S>>::empty()) == (state, Seq::<Action>::empty()),
{
    assert(events.push(event).drop_last() =~= events);
    assert(events.push(event).last() == event);
}

/// The first step of a tick on the plain surface.
proof fn lemma_first_step_plain<S>(state: RendererModel<S>, eye_z: S, rotation: [S; 4])
    requires
        state.consistent(),
        state.phase is Idle,
        state.source is PlainSurface,
    ensures
        step_once(state, Event::RedrawRequested { eye_z, rotation }) == (
            state.moved(eye_z, rotation).in_phase(Phase::Uploading),
            Action::Upload(upload_plan_spec(state.moved(eye_z, rotation).instance_count())),
        ),
        state.moved(eye_z, rotation).consistent(),
        state.moved(eye_z, rotation).phase is Idle,
        state.moved(eye_z, rotation).pending_resize == state.pending_resize,
        state.moved(eye_z, rotation).xr_frame is None,
{
    reveal(step_once);
}

/// The first two steps of a tick with a stereo runtime.
proof fn lemma_first_steps_xr<S>(
    state: RendererModel<S>,
    eye_z: S,
    rotation: [S; 4],
    frame: Option<FrameState>,
)
    requires
        state.consistent(),
        state.phase is Idle,
        state.source is StereoXrSurface,
        state.pending_resize is None,
    ensures
        step_once(state, Event::RedrawRequested { eye_z, rotation }) == (
            state.moved(eye_z, rotation).in_phase(Phase::XrPreFrame),
            Action::BeginXrFrame,
        ),
        state.moved(eye_z, rotation).consistent(),
        state.moved(eye_z, rotation).pending_resize is None,
        state.moved(eye_z, rotation).phase is Idle,
        frame is Some ==> step_once(
            state.moved(eye_z, rotation).in_phase(Phase::XrPreFrame),
            Event::XrFrameBegun(frame),
        ) == (
            (RendererModel { xr_frame: frame, ..state.moved(eye_z, rotation) }).in_phase(
                Phase::Uploading,
            ),
            Action::Upload(upload_plan_spec(state.moved(eye_z, rotation).instance_count())),
        ),
        frame is None ==> step_once(
            state.moved(eye_z, rotation).in_phase(Phase::XrPreFrame),
            Event::XrFrameBegun(frame),
        ) == (state.moved(eye_z, rotation), Action::Wait),
{
    reveal(step_once);
}

/// The steps of a tick from the buffer writes to the presentation, and the
/// steps that end it.
proof fn lemma_render_steps<S>(state: RendererModel<S>)
    requires
        state.consistent(),
        state.pending_resize is None,
    ensures
        step_once(state.in_phase(Phase::Uploading), Event::Completed) == (
            state.in_phase(Phase::Acquiring { retried: false }),
            Action::Acquire,
        ),
        step_once(state.in_phase(Phase::Acquiring { retried: false }), Event::FrameAcquired) == (
            state.in_phase(Phase::RecordScene),
            Action::RecordScene(scene_pass_spec(state.targets, state.instance_count())),
        ),
        step_once(state.in_phase(Phase::RecordScene), Event::Completed) == (
            state.in_phase(Phase::RecordBlit),
            Action::RecordBlit(blit_pass_spec(state.targets)),
        ),
        step_once(state.in_phase(Phase::RecordBlit), Event::Completed) == (
            state.in_phase(Phase::Submitted),
            Action::Submit,
        ),
        step_once(state.in_phase(Phase::Submitted), Event::Completed) == (
            state.in_phase(Phase::Presented),
            Action::Present,
        ),
        state.xr_frame is None ==> step_once(state.in_phase(Phase::Presented), Event::Completed)
            == (state.in_phase(Phase::Idle), Action::Wait),
        state.xr_frame is Some ==> {
            &&& step_once(state.in_phase(Phase::Presented), Event::Completed) == (
                (RendererModel { xr_frame: None, ..state }).in_phase(Phase::XrPostFrame),
                Action::EndXrFrame(state.xr_frame->0),
            )
            &&& step_once(
                (RendererModel { xr_frame: None, ..state }).in_phase(Phase::XrPostFrame),
                Event::XrFrameEnded,
            ) == ((RendererModel { xr_frame: None, ..state }).in_phase(Phase::Idle), Action::Wait)
        },
{
    reveal(step_once);
}

/// The events of a tick with a stereo runtime that has no frame to offer.
pub open spec fn xr_tick_without_frame_events<S>(eye_z: S, rotation: [S; 4]) -> Seq<Event<S>> {
    seq![Event::RedrawRequested { eye_z, rotation }, Event::XrFrameBegun(None)]
}

/// The events of a tick with a stereo runtime that offers the frame
/// `frame`, in which every action succeeds.
pub open spec fn xr_tick_events<S>(eye_z: S, rotation: [S; 4], frame: FrameState) -> Seq<Event<S>> {
    seq![
        Event::RedrawRequested { eye_z, rotation },
        Event::XrFrameBegun(Some(frame)),
        Event::Completed,
        Event::FrameAcquired,
        Event::Completed,
        Event::Completed,
        Event::Completed,
        Event::Completed,
        Event::XrFrameEnded,
    ]
}

/// With a stereo runtime that has no frame to offer, the tick is the
/// question alone: nothing is written, acquired, recorded, submitted or
/// presented, and the driver is idle again.
pub proof fn lemma_xr_tick_without_frame<S>(state: RendererModel<S>, eye_z: S, rotation: [S; 4])
    requires
        state.consistent(),
        state.phase is Idle,
        state.source is StereoXrSurface,
        state.pending_resize is None,
    ensures
        run(state, xr_tick_without_frame_events(eye_z, rotation)) == (
            state.moved(eye_z, rotation),
            seq![Action::BeginXrFrame, Action::Wait],
        ),
{
    let moved = state.moved(eye_z, rotation);
    let none = Seq::<Event<S>>::empty();
    let e1 = none.push(Event::RedrawRequested { eye_z, rotation });
    let e2 = e1.push(Event::XrFrameBegun(None));
    lemma_first_steps_xr(state, eye_z, rotation, None);
    assert(moved.in_phase(Phase::Idle) == moved);
    lemma_run_push(state, none, Event::RedrawRequested { eye_z, rotation });
    assert(run(state, e1).0 == moved.in_phase(Phase::XrPreFrame));
    lemma_run_push(state, e1, Event::XrFrameBegun(None));
    assert(e2 =~= xr_tick_without_frame_events(eye_z, rotation));
    assert(run(state, e2).1 =~= seq![Action::BeginXrFrame, Action::Wait]);
}

/// With a stereo runtime that offers a frame, the tick is the tick of the
/// plain surface, action for action, put between the two calls of the
/// runtime: the question before the buffer writes, and the frame handed
/// back after the presentation.
pub proof fn lemma_xr_tick_brackets_plain_tick<S>(
    state: RendererModel<S>,
    eye_z: S,
    rotation: [S; 4],
    frame: FrameState,
)
    requires
        state.consistent(),
        state.phase is Idle,
        state.source is StereoXrSurface,
        state.pending_resize is None,
    ensures
        ({
            let plain = RendererModel { source: FrameSource::PlainSurface, xr_frame: None, ..state };
            let plain_run = run(plain, plain_tick_events(eye_z, rotation));
            let xr_run = run(state, xr_tick_events(eye_z, rotation, frame));
            &&& plain.consistent()
            &&& plain_run.1 == render_actions(state.moved(eye_z, rotation)).push(Action::Wait)
            &&& xr_run.1 == (seq![Action::BeginXrFrame] + render_actions(
                state.moved(eye_z, rotation),
            )).push(Action::EndXrFrame(frame)).push(Action::Wait)
            &&& xr_run.0.phase is Idle
            &&& plain_run.0.phase is Idle
            &&& xr_run.0.targets == plain_run.0.targets
            &&& xr_run.0.instances == plain_run.0.instances
            &&& xr_run.0.camera == plain_run.0.camera
        }),
{
    let plain = RendererModel { source: FrameSource::PlainSurface, xr_frame: None, ..state };
    lemma_plain_tick(plain, eye_z, rotation);
    let moved = state.moved(eye_z, rotation);
    assert(plain.moved(eye_z, rotation).targets == moved.targets);
    assert(plain.moved(eye_z, rotation).instances == moved.instances);
    assert(render_actions(plain.moved(eye_z, rotation)) == render_actions(moved));
    let open = RendererModel { xr_frame: Some(frame), ..moved };
    assert(open.instance_count() == moved.instance_count());
    let none = Seq::<Event<S>>::empty();
    let e1 = none.push(Event::RedrawRequested { eye_z, rotation });
    let e2 = e1.push(Event::XrFrameBegun(Some(frame)));
    let e3 = e2.push(Event::Completed);
    let e4 = e3.push(Event::FrameAcquired);
    let e5 = e4.push(Event::Completed);
    let e6 = e5.push(Event::Completed);
    let e7 = e6.push(Event::Completed);
    let e8 = e7.push(Event::Completed);
    let e9 = e8.push(Event::XrFrameEnded);
    lemma_first_steps_xr(state, eye_z, rotation, Some(frame));
    let rendering = open.in_phase(Phase::Uploading);
    lemma_render_steps(rendering);
    assert(rendering.in_phase(Phase::Uploading) == open.in_phase(Phase::Uploading));
    assert(rendering.in_phase(Phase::Acquiring { retried: false }) == open.in_phase(
        Phase::Acquiring { retried: false },
    ));
    assert(rendering.in_phase(Phase::RecordScene) == open.in_phase(Phase::RecordScene));
    assert(rendering.in_phase(Phase::RecordBlit) == open.in_phase(Phase::RecordBlit));
    assert(rendering.in_phase(Phase::Submitted) == open.in_phase(Phase::Submitted));
    assert(rendering.in_phase(Phase::Presented) == open.in_phase(Phase::Presented));
    assert((RendererModel { xr_frame: None, ..rendering }).in_phase(Phase::XrPostFrame) == (
        RendererModel { xr_frame: None, ..open }
    ).in_phase(Phase::XrPostFrame));
    assert((RendererModel { xr_frame: None, ..rendering }).in_phase(Phase::Idle) == moved);
    assert((RendererModel { xr_frame: None, ..open }) == moved);
    assert(moved.in_phase(Phase::Idle) == moved);
    lemma_run_push(state, none, Event::RedrawRequested { eye_z, rotation });
    assert(run(state, e1).0 == moved.in_phase(Phase::XrPreFrame));
    lemma_run_push(state, e1, Event::XrFrameBegun(Some(frame)));
    assert(run(state, e2).0 == open.in_phase(Phase::Uploading));
    lemma_run_push(state, e2, Event::Completed);
    assert(run(state, e3).0 == open.in_phase(Phase::Acquiring { retried: false }));
    lemma_run_push(state, e3, Event::FrameAcquired);
    assert(run(state, e4).0 == open.in_phase(Phase::RecordScene));
    lemma_run_push(state, e4, Event::Completed);
    assert(run(state, e5).0 == open.in_phase(Phase::RecordBlit));
    lemma_run_push(state, e5, Event::Completed);
    assert(run(state, e6).0 == open.in_phase(Phase::Submitted));
    lemma_run_push(state, e6, Event::Completed);
    assert(run(state, e7).0 == open.in_phase(Phase::Presented));
    lemma_run_push(state, e7, Event::Completed);
    assert(run(state, e8).0 == (RendererModel { xr_frame: None, ..open }).in_phase(
        Phase::XrPostFrame,
    ));
    lemma_run_push(state, e8, Event::XrFrameEnded);
    assert(run(state, e9).0 == (RendererModel { xr_frame: None, ..open }).in_phase(Phase::Idle));
    assert(e9 =~= xr_tick_events(eye_z, rotation, frame));
    assert(run(state, e9).1 =~= (seq![Action::BeginXrFrame] + render_actions(moved)).push(
        Action::EndXrFrame(frame),
    ).push(Action::Wait));
}

/// Closing ends everything: whatever the driver was doing, it answers the
/// request with `Exit`, and every event after that with `Exit` again.
pub proof fn lemma_close_is_final<S>(state: RendererModel<S>, event: Event<S>)
    ensures
        state.step(Event::CloseRequested).1 == Action::Exit,
        state.step(Event::CloseRequested).0.phase is Closed,
        state.step(Event::CloseRequested).0.step(event) == (
            state.step(Event::CloseRequested).0,
            Action::Exit,
        ),
{
}

} // verus!
