use crate::camera::camera_controller::{moves_for, update_camera, CameraMoves};
use crate::input::{InputManager, Key};
use vstd::prelude::*;

verus! {

/// The phase that the rendering of a frame is in.
#[derive(Clone, Copy, Debug, PartialEq, Eq, Structural)]
pub enum FrameState {
    /// No frame is being rendered.
    Idle,
    /// The next presentable image is being requested from the surface.
    AcquireFrame,
    /// The render pass is being recorded.
    RecordCommands,
    /// The recorded commands are being handed to the queue.
    Submit,
    /// The finished image is being presented.
    Present,
    /// The surface gave no image. Nothing is rendered any more.
    Failed,
}

/// What the event loop reports to the renderer.
#[derive(Clone, Copy, Debug, PartialEq, Eq, Structural)]
pub enum FrameEvent {
    /// The window asks for a new frame.
    RedrawRequested,
    /// The surface handed out its next image.
    FrameAcquired,
    /// The surface handed out no image: it is lost or outdated, or the
    /// request timed out.
    AcquireFailed,
    /// The render pass has been recorded.
    CommandsRecorded,
    /// The queue has taken the commands.
    Submitted,
    /// The image has been presented.
    Presented,
}

/// What the renderer asks of the event loop next.
#[derive(Clone, Copy, Debug, PartialEq, Eq, Structural)]
pub enum FrameAction {
    /// Request the next image from the surface.
    Acquire,
    /// Record the render pass into a new command buffer.
    Record,
    /// Submit the command buffer to the queue.
    Submit,
    /// Present the image.
    Present,
    /// Give up: the failure is fatal.
    Abort,
}

/// The state that follows `state` when `event` is reported. An event that
/// the state does not wait for changes nothing.
pub open spec fn next_state(state: FrameState, event: FrameEvent) -> FrameState {
    match (state, event) {
        (FrameState::Idle, FrameEvent::RedrawRequested) => FrameState::AcquireFrame,
        (FrameState::AcquireFrame, FrameEvent::FrameAcquired) => FrameState::RecordCommands,
        (FrameState::AcquireFrame, FrameEvent::AcquireFailed) => FrameState::Failed,
        (FrameState::RecordCommands, FrameEvent::CommandsRecorded) => FrameState::Submit,
        (FrameState::Submit, FrameEvent::Submitted) => FrameState::Present,
        (FrameState::Present, FrameEvent::Presented) => FrameState::Idle,
        _ => state,
    }
}

/// What is asked of the event loop when `event` is reported in `state`: the
/// work of the state that is entered, or nothing where the state stays or
/// the frame is done.
pub open spec fn next_action(state: FrameState, event: FrameEvent) -> Option<FrameAction> {
    match (state, event) {
        (FrameState::Idle, FrameEvent::RedrawRequested) => Some(FrameAction::Acquire),
        (FrameState::AcquireFrame, FrameEvent::FrameAcquired) => Some(FrameAction::Record),
        (FrameState::AcquireFrame, FrameEvent::AcquireFailed) => Some(FrameAction::Abort),
        (FrameState::RecordCommands, FrameEvent::CommandsRecorded) => Some(FrameAction::Submit),
        (FrameState::Submit, FrameEvent::Submitted) => Some(FrameAction::Present),
        _ => None,
    }
}

/// Renders frames one at a time: acquire, record, submit, present.
pub struct FrameRenderer {
    state: FrameState,
}

impl View for FrameRenderer {
    type V = FrameState;

    closed spec fn view(&self) -> FrameState {
        self.state
    }
}

impl FrameRenderer {
    /// A renderer that is idle.
    pub fn new() -> (r: Self)
        ensures
            r@ == FrameState::Idle,
    {
        FrameRenderer { state: FrameState::Idle }
    }

    /// The phase that the renderer is in.
    pub fn state(&self) -> (s: FrameState)
        ensures
            s == self@,
    {
        self.state
    }

    /// Takes note of `event` and says what the event loop has to do next, if
    /// anything.
    pub fn step(&mut self, event: FrameEvent) -> (action: Option<FrameAction>)
        ensures
            final(self)@ == next_state(old(self)@, event),
            action == next_action(old(self)@, event),
    {
        let (state, action) = match (self.state, event) {
            (FrameState::Idle, FrameEvent::RedrawRequested) => (
                FrameState::AcquireFrame,
                Some(FrameAction::Acquire),
            ),
            (FrameState::AcquireFrame, FrameEvent::FrameAcquired) => (
                FrameState::RecordCommands,
                Some(FrameAction::Record),
            ),
            (FrameState::AcquireFrame, FrameEvent::AcquireFailed) => (
                FrameState::Failed,
                Some(FrameAction::Abort),
            ),
            (FrameState::RecordCommands, FrameEvent::CommandsRecorded) => (
                FrameState::Submit,
                Some(FrameAction::Submit),
            ),
            (FrameState::Submit, FrameEvent::Submitted) => (
                FrameState::Present,
                Some(FrameAction::Present),
            ),
            (FrameState::Present, FrameEvent::Presented) => (FrameState::Idle, None),
            (state, _) => (state, None),
        };
        self.state = state;
        action
    }
}

/// The state reached from `state` after the events `events`, in order.
pub open spec fn state_after(state: FrameState, events: Seq<FrameEvent>) -> FrameState
    decreases events.len(),
{
    if events.len() == 0 {
        state
    } else {
        next_state(state_after(state, events.drop_last()), events.last())
    }
}

/// The actions asked for, in order, while the events `events` are reported
/// from `state` on.
pub open spec fn actions_during(state: FrameState, events: Seq<FrameEvent>) -> Seq<FrameAction>
    decreases events.len(),
{
    if events.len() == 0 {
        Seq::empty()
    } else {
        let earlier = actions_during(state, events.drop_last());
        match next_action(state_after(state, events.drop_last()), events.last()) {
            Some(action) => earlier.push(action),
            None => earlier,
        }
    }
}

/// Whether `later` may be the next action after `earlier`.
pub open spec fn may_follow(earlier: FrameAction, later: FrameAction) -> bool {
    match earlier {
        FrameAction::Acquire => later == FrameAction::Record || later == FrameAction::Abort,
        FrameAction::Record => later == FrameAction::Submit,
        FrameAction::Submit => later == FrameAction::Present,
        FrameAction::Present => later == FrameAction::Acquire,
        FrameAction::Abort => false,
    }
}

/// Whether the actions come in the order of whole frames: each frame is
/// acquired, recorded, submitted and presented, in that order, and only an
/// acquisition can end in an abort, after which nothing follows.
pub open spec fn in_frame_order(actions: Seq<FrameAction>) -> bool {
    &&& actions.len() > 0 ==> actions[0] == FrameAction::Acquire
    &&& forall|i: int| 0 <= i < actions.len() - 1 ==> may_follow(#[trigger] actions[i], actions[i + 1])
}

/// The state that the renderer is in after it has asked for `action`, up
/// to the end of a frame, where it is idle again.
pub open spec fn state_asked(action: FrameAction) -> FrameState {
    match action {
        FrameAction::Acquire => FrameState::AcquireFrame,
        FrameAction::Record => FrameState::RecordCommands,
        FrameAction::Submit => FrameState::Submit,
        FrameAction::Present => FrameState::Present,
        FrameAction::Abort => FrameState::Failed,
    }
}

/// Whatever is reported to a renderer that starts idle, and in whatever
/// order, what it asks for comes in the order of whole frames: nothing is
/// recorded before an image is acquired, nothing submitted before it is
/// recorded, nothing presented before it is submitted.
pub proof fn lemma_actions_in_frame_order(events: Seq<FrameEvent>)
    ensures
        in_frame_order(actions_during(FrameState::Idle, events)),
        ({
            let actions = actions_during(FrameState::Idle, events);
            let state = state_after(FrameState::Idle, events);
            if actions.len() == 0 {
                state == FrameState::Idle
            } else if state == FrameState::Idle {
                actions.last() == FrameAction::Present
            } else {
                state == state_asked(actions.last())
            }
        }),
    decreases events.len(),
{
    if events.len() > 0 {
        lemma_actions_in_frame_order(events.drop_last());
        let earlier = actions_during(FrameState::Idle, events.drop_last());
        let actions = actions_during(FrameState::Idle, events);
        let before = state_after(FrameState::Idle, events.drop_last());
        match next_action(before, events.last()) {
            Some(action) => {
                assert(actions == earlier.push(action));
                assert forall|i: int| 0 <= i < actions.len() - 1 implies may_follow(
                    #[trigger] actions[i],
                    actions[i + 1],
                ) by {
                    if i < earlier.len() - 1 {
                        assert(actions[i] == earlier[i]);
                        assert(actions[i + 1] == earlier[i + 1]);
                    } else {
                        assert(actions[i] == earlier.last());
                        assert(actions[i + 1] == action);
                    }
                }
            },
            None => {},
        }
    }
}

/// A frame that meets no failure goes through all four phases, in order,
/// and leaves the renderer idle.
pub proof fn lemma_whole_frame()
    ensures
        ({
            let events = seq![
                FrameEvent::RedrawRequested,
                FrameEvent::FrameAcquired,
                FrameEvent::CommandsRecorded,
                FrameEvent::Submitted,
                FrameEvent::Presented,
            ];
            &&& state_after(FrameState::Idle, events) == FrameState::Idle
            &&& actions_during(FrameState::Idle, events) == seq![
                FrameAction::Acquire,
                FrameAction::Record,
                FrameAction::Submit,
                FrameAction::Present,
            ]
        }),
{
    let e1 = seq![FrameEvent::RedrawRequested];
    let e2 = e1.push(FrameEvent::FrameAcquired);
    let e3 = e2.push(FrameEvent::CommandsRecorded);
    let e4 = e3.push(FrameEvent::Submitted);
    let e5 = e4.push(FrameEvent::Presented);
    let idle = FrameState::Idle;
    assert(e1.drop_last() =~= Seq::<FrameEvent>::empty());
    assert(e2.drop_last() =~= e1);
    assert(e3.drop_last() =~= e2);
    assert(e4.drop_last() =~= e3);
    assert(e5.drop_last() =~= e4);
    reveal_with_fuel(state_after, 2);
    reveal_with_fuel(actions_during, 2);
    assert(state_after(idle, e1) == FrameState::AcquireFrame);
    assert(actions_during(idle, e1) =~= seq![FrameAction::Acquire]);
    assert(state_after(idle, e2) == FrameState::RecordCommands);
    assert(actions_during(idle, e2) =~= seq![FrameAction::Acquire, FrameAction::Record]);
    assert(state_after(idle, e3) == FrameState::Submit);
    assert(actions_during(idle, e3) =~= seq![
        FrameAction::Acquire,
        FrameAction::Record,
        FrameAction::Submit,
    ]);
    assert(state_after(idle, e4) == FrameState::Present);
    assert(actions_during(idle, e4) =~= seq![
        FrameAction::Acquire,
        FrameAction::Record,
        FrameAction::Submit,
        FrameAction::Present,
    ]);
    assert(state_after(idle, e5) == FrameState::Idle);
    assert(actions_during(idle, e5) =~= actions_during(idle, e4));
    assert(e5 =~= seq![
        FrameEvent::RedrawRequested,
        FrameEvent::FrameAcquired,
        FrameEvent::CommandsRecorded,
        FrameEvent::Submitted,
        FrameEvent::Presented,
    ]);
}

/// A failed acquisition is fatal: the renderer asks for nothing more and
/// never leaves the failed state.
pub proof fn lemma_failure_is_final(event: FrameEvent)
    ensures
        next_state(FrameState::Failed, event) == FrameState::Failed,
        next_action(FrameState::Failed, event).is_none(),
        next_action(FrameState::AcquireFrame, FrameEvent::AcquireFailed) == Some(
            FrameAction::Abort,
        ),
{
}

/// An idle renderer begins a frame when a redraw is requested, and on
/// nothing else.
pub proof fn lemma_frame_begins_on_redraw(event: FrameEvent)
    ensures
        next_action(FrameState::Idle, event).is_some() <==> event == FrameEvent::RedrawRequested,
        next_state(FrameState::Idle, event) != FrameState::Idle <==> event
            == FrameEvent::RedrawRequested,
{
}

/// One step of the work that precedes the rendering of a frame.
#[derive(Clone, Copy, Debug, PartialEq, Eq, Structural)]
pub enum UpdateStep {
    /// Apply the movements to the camera.
    MoveCamera(CameraMoves),
    /// Recompute the view-projection matrix and upload it to the uniform
    /// buffer, on the queue that the frame's commands will be submitted to.
    SyncUniform,
    /// Ask the window for a redraw.
    RequestRedraw,
}

/// The steps that follow the dispatch of a frame's events, given the key
/// states at that time: the camera moves first, then the uniform follows
/// the camera, and only then is the frame asked for.
pub open spec fn update_steps(states: Map<Key, bool>, beyond_step: bool) -> Seq<UpdateStep> {
    seq![
        UpdateStep::MoveCamera(moves_for(states, beyond_step)),
        UpdateStep::SyncUniform,
        UpdateStep::RequestRedraw,
    ]
}

/// Plans the work between the last event of a frame and its rendering, and
/// releases the one edge-triggered key, the space bar, for the next frame.
/// `beyond_step` says whether the eye is farther from the target than one
/// step of the camera.
pub fn prepare_frame(input_manager: &mut InputManager, beyond_step: bool) -> (steps: Vec<
    UpdateStep,
>)
    ensures
        steps@ == update_steps(old(input_manager)@, beyond_step),
        final(input_manager)@ == old(input_manager)@.insert(Key::Space, false),
{
    let moves = update_camera(input_manager, beyond_step);
    input_manager.clear(Key::Space);
    let mut steps: Vec<UpdateStep> = Vec::new();
    steps.push(UpdateStep::MoveCamera(moves));
    steps.push(UpdateStep::SyncUniform);
    steps.push(UpdateStep::RequestRedraw);
    assert(steps@ =~= update_steps(old(input_manager)@, beyond_step));
    steps
}

} // verus!
