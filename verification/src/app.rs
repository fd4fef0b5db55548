//! The frame loop of the shell, as a state machine.
//!
//! The native event loop, the application's callbacks, the menu channel, the
//! presentation surface and the clock are all outside this crate. What is here
//! is every decision of the loop: `AppLoop::step` takes what the shell reports
//! (a platform event, the outcome of the last request, a polled menu
//! activation, a measured time) and answers with the one thing the shell has to
//! do next. The shell does it and reports back, until the answer is to wait for
//! the next platform event or to exit.
//!
//! One iteration, for one platform event, runs in this fixed order:
//!
//! 1. the application handles the raw event; a failure ends the loop;
//! 2. at most one pending menu activation is polled and dispatched;
//! 3. the event goes to the input tracker;
//! 4. the event is routed: a close request ends the loop; a press of the right
//!    mouse button shows the context menu if one is configured; a resize
//!    resizes the surface, and a failure of that ends the loop; a redraw
//!    request runs a frame; at idle a redraw is requested.
//!
//! A frame measures the time since the last frame, ages the input states, runs
//! one update per tick that the frame clock releases, and then draws once. Any
//! failure of an update or of the draw ends the loop.

use crate::event::{ElementState, Event, MouseButton, WindowEvent};
use crate::frame_clock::{carried_over, clamped_delta, lemma_ticks_fit, ticks_due, FrameClock};
use crate::input::{
    aged, cursor_after_event, modifiers_after_event, states_after_event, InputManager,
};
use crate::menu::{MenuDispatchMap, MenuId};
use crate::render_context::RenderContext;
use vstd::prelude::*;

verus! {

/// The phase of the loop's life.
#[derive(Debug, Clone, Copy, PartialEq, Eq, Structural)]
pub enum LoopPhase {
    /// The window, the menus and the surface are being set up; no event has
    /// been taken yet.
    Initializing,
    /// Events are taken and frames are run.
    Running,
    /// The loop has ended. No callback fires any more.
    Exiting,
}

/// What the loop has asked of the shell and is waiting to hear about.
#[derive(Debug, Clone, Copy, PartialEq, Eq, Structural)]
pub enum LoopStage {
    /// Nothing: the next platform event starts an iteration.
    Idle,
    /// The application is handling this event.
    HandlingEvent(Event),
    /// The menu channel is being polled; this event is routed afterwards.
    PollingMenu(Event),
    /// The surface is being resized to this size.
    ResizingSurface { width: u32, height: u32 },
    /// The time since the last frame is being measured.
    SamplingClock,
    /// An update tick is running; `remaining` more are due after it.
    Updating { remaining: u64 },
    /// The frame is being drawn.
    Drawing,
}

/// The one thing the shell has to do next.
#[derive(Debug, Clone, Copy, PartialEq, Eq, Structural)]
pub enum LoopAction {
    /// Hand the raw platform event to the application's event handler, and
    /// report whether it succeeded.
    HandleEvent,
    /// Poll the menu channel without blocking, for at most one activation, and
    /// report what came.
    PollMenu,
    /// Show the context menu at the pointer. The iteration is over.
    ShowContextMenu,
    /// Resize the presentation surface, and report whether that succeeded.
    ResizeSurface { width: u32, height: u32 },
    /// Measure the time since the last measurement, and report it.
    SampleClock,
    /// Call the application's update with the context, and report whether it
    /// succeeded.
    Update,
    /// Call the application's draw with the context, and report whether it
    /// succeeded.
    Draw,
    /// Ask the window for a redraw. The iteration is over.
    RequestRedraw,
    /// End the native event loop.
    Exit,
    /// Nothing further: wait for the next platform event.
    Wait,
}

/// What the shell reports to the loop.
#[derive(Debug)]
pub enum LoopInput {
    /// A platform event arrived.
    Event(Event),
    /// The last request was carried out.
    Succeeded,
    /// The last request failed.
    Failed,
    /// The menu channel was polled: the identifier of the activated item, or
    /// `None` if nothing was pending.
    MenuActivation(Option<MenuId>),
    /// The time since the last measurement, in nanoseconds.
    Elapsed(u64),
}

/// What one step does to the input tracker of the context.
#[derive(Debug, Clone, Copy, PartialEq, Eq, Structural)]
pub enum InputEffect {
    /// Nothing.
    Unchanged,
    /// The event is handed to it.
    Forwarded(Event),
    /// Its states are aged by one frame.
    Aged,
}

/// The loop's own state, as plain values.
#[derive(Debug, Clone, Copy, PartialEq, Eq, Structural)]
pub struct LoopState {
    pub phase: LoopPhase,
    pub stage: LoopStage,
    /// The fixed step of the update logic, in nanoseconds; never zero.
    pub target_frame_time: u64,
    /// The cap on the delta of one frame, in nanoseconds.
    pub max_frame_time: u64,
    /// The time accumulated and not yet handed out as ticks.
    pub accumulated_time: u64,
    /// Whether the next frame leaves out its update phase.
    pub skip_update: bool,
    /// The policy: whether a resize makes the next frame leave out its update
    /// phase.
    pub skip_update_after_resize: bool,
    /// Whether a context menu is configured.
    pub has_context_menu: bool,
    /// Whether a failure was reported to the loop. A loop that has ended with
    /// this set has ended on an error, one that has ended without it has
    /// ended cleanly.
    pub failed: bool,
}

/// One step of the loop: the state it leads to, the action it asks for, what
/// it does to the input tracker, and whether it dispatches a polled menu
/// activation.
pub struct Step {
    pub state: LoopState,
    pub action: LoopAction,
    pub input_effect: InputEffect,
    pub dispatches: bool,
}

impl LoopState {
    /// What holds of the state of every loop: the step of the update logic is
    /// positive and the accumulator holds less than one step.
    pub open spec fn wf(self) -> bool {
        0 < self.target_frame_time && self.accumulated_time < self.target_frame_time
    }

    /// A step that changes nothing and asks for `action`.
    pub open spec fn stay(self, action: LoopAction) -> Step {
        Step { state: self, action, input_effect: InputEffect::Unchanged, dispatches: false }
    }

    /// A step to `stage` that asks for `action`.
    pub open spec fn go(self, stage: LoopStage, action: LoopAction) -> Step {
        Step {
            state: LoopState { stage, ..self },
            action,
            input_effect: InputEffect::Unchanged,
            dispatches: false,
        }
    }

    /// The step that ends the loop cleanly.
    pub open spec fn exit(self) -> Step {
        Step {
            state: LoopState { phase: LoopPhase::Exiting, stage: LoopStage::Idle, ..self },
            action: LoopAction::Exit,
            input_effect: InputEffect::Unchanged,
            dispatches: false,
        }
    }

    /// The step that ends the loop on a failure.
    pub open spec fn fail(self) -> Step {
        Step {
            state: LoopState {
                phase: LoopPhase::Exiting,
                stage: LoopStage::Idle,
                failed: true,
                ..self
            },
            action: LoopAction::Exit,
            input_effect: InputEffect::Unchanged,
            dispatches: false,
        }
    }

    /// The state after the event was handed to the application, the menu
    /// channel was polled and the event went to the input tracker, and the
    /// action that the event itself calls for.
    pub open spec fn route(self, event: Event) -> (LoopState, LoopAction) {
        match event {
            Event::WindowEvent { window_id, event: WindowEvent::CloseRequested } => self.exit().unpack(),
            Event::WindowEvent {
                window_id,
                event: WindowEvent::MouseInput {
                    state: ElementState::Pressed,
                    button: MouseButton::Right,
                },
            } => if self.has_context_menu {
                (LoopState { stage: LoopStage::Idle, ..self }, LoopAction::ShowContextMenu)
            } else {
                (LoopState { stage: LoopStage::Idle, ..self }, LoopAction::Wait)
            },
            Event::WindowEvent { window_id, event: WindowEvent::Resized { width, height } } => (
                LoopState { stage: LoopStage::ResizingSurface { width, height }, ..self },
                LoopAction::ResizeSurface { width, height },
            ),
            Event::WindowEvent { window_id, event: WindowEvent::RedrawRequested } => if self.skip_update {
                (
                    LoopState { stage: LoopStage::Drawing, skip_update: false, ..self },
                    LoopAction::Draw,
                )
            } else {
                (LoopState { stage: LoopStage::SamplingClock, ..self }, LoopAction::SampleClock)
            },
            Event::AboutToWait => (
                LoopState { stage: LoopStage::Idle, ..self },
                LoopAction::RequestRedraw,
            ),
            _ => (LoopState { stage: LoopStage::Idle, ..self }, LoopAction::Wait),
        }
    }

    /// The state after `raw_delta` was measured at the start of a frame, and
    /// the first action of the frame: the clock takes the capped delta and
    /// releases the ticks that are due; the frame updates once per tick and
    /// then draws.
    pub open spec fn begin_frame(self, raw_delta: u64) -> (LoopState, LoopAction) {
        let delta = clamped_delta(raw_delta, self.max_frame_time);
        let ticks = ticks_due(
            self.accumulated_time as nat,
            delta as nat,
            self.target_frame_time as nat,
        );
        let rest = carried_over(
            self.accumulated_time as nat,
            delta as nat,
            self.target_frame_time as nat,
        );
        if ticks > 0 {
            (
                LoopState {
                    stage: LoopStage::Updating { remaining: (ticks - 1) as u64 },
                    accumulated_time: rest as u64,
                    ..self
                },
                LoopAction::Update,
            )
        } else {
            (
                LoopState { stage: LoopStage::Drawing, accumulated_time: rest as u64, ..self },
                LoopAction::Draw,
            )
        }
    }

    /// Whether the pending request is one that can fail: the handling of an
    /// event by the application, the resize of the surface, an update or the
    /// draw.
    pub open spec fn awaits_outcome(self) -> bool {
        self.stage is HandlingEvent || self.stage is ResizingSurface || self.stage is Updating
            || self.stage is Drawing
    }

    /// The request that the loop is waiting to hear about.
    pub open spec fn pending(self) -> LoopAction {
        match self.phase {
            LoopPhase::Initializing => LoopAction::Wait,
            LoopPhase::Exiting => LoopAction::Exit,
            LoopPhase::Running => match self.stage {
                LoopStage::Idle => LoopAction::Wait,
                LoopStage::HandlingEvent(_) => LoopAction::HandleEvent,
                LoopStage::PollingMenu(_) => LoopAction::PollMenu,
                LoopStage::ResizingSurface { width, height } => LoopAction::ResizeSurface {
                    width,
                    height,
                },
                LoopStage::SamplingClock => LoopAction::SampleClock,
                LoopStage::Updating { remaining } => LoopAction::Update,
                LoopStage::Drawing => LoopAction::Draw,
            },
        }
    }

    /// The step that the loop takes from this state on `input`, where
    /// `exit_requested` says whether the application has asked the loop to
    /// end.
    ///
    /// A loop that has ended stays ended and asks for nothing but the exit. A
    /// loop that has not started takes no step. A running loop ends once an
    /// exit is requested: on a failure if the pending request is reported to
    /// have failed, cleanly otherwise. Otherwise the input has to answer the pending
    /// request; one that does not changes nothing, and the request is made
    /// again.
    pub open spec fn next(self, exit_requested: bool, input: LoopInput) -> Step {
        match self.phase {
            LoopPhase::Exiting => self.stay(LoopAction::Exit),
            LoopPhase::Initializing => self.stay(LoopAction::Wait),
            LoopPhase::Running => if exit_requested {
                if input is Failed && self.awaits_outcome() {
                    self.fail()
                } else {
                    self.exit()
                }
            } else {
                match (self.stage, input) {
                    (LoopStage::Idle, LoopInput::Event(event)) => self.go(
                        LoopStage::HandlingEvent(event),
                        LoopAction::HandleEvent,
                    ),
                    (LoopStage::HandlingEvent(event), LoopInput::Succeeded) => self.go(
                        LoopStage::PollingMenu(event),
                        LoopAction::PollMenu,
                    ),
                    (LoopStage::HandlingEvent(event), LoopInput::Failed) => self.fail(),
                    (LoopStage::PollingMenu(event), LoopInput::MenuActivation(activation)) => Step {
                        state: self.route(event).0,
                        action: self.route(event).1,
                        input_effect: InputEffect::Forwarded(event),
                        dispatches: activation is Some,
                    },
                    (LoopStage::ResizingSurface { width, height }, LoopInput::Succeeded) => Step {
                        state: LoopState {
                            stage: LoopStage::Idle,
                            skip_update: self.skip_update || self.skip_update_after_resize,
                            ..self
                        },
                        action: LoopAction::Wait,
                        input_effect: InputEffect::Unchanged,
                        dispatches: false,
                    },
                    (LoopStage::ResizingSurface { width, height }, LoopInput::Failed) => self.fail(),
                    (LoopStage::SamplingClock, LoopInput::Elapsed(raw_delta)) => Step {
                        state: self.begin_frame(raw_delta).0,
                        action: self.begin_frame(raw_delta).1,
                        input_effect: InputEffect::Aged,
                        dispatches: false,
                    },
                    (LoopStage::Updating { remaining }, LoopInput::Succeeded) => if remaining > 0 {
                        self.go(
                            LoopStage::Updating { remaining: (remaining - 1) as u64 },
                            LoopAction::Update,
                        )
                    } else {
                        self.go(LoopStage::Drawing, LoopAction::Draw)
                    },
                    (LoopStage::Updating { remaining }, LoopInput::Failed) => self.fail(),
                    (LoopStage::Drawing, LoopInput::Succeeded) => self.go(
                        LoopStage::Idle,
                        LoopAction::Wait,
                    ),
                    (LoopStage::Drawing, LoopInput::Failed) => self.fail(),
                    _ => self.stay(self.pending()),
                }
            },
        }
    }
}

impl Step {
    /// The state and the action of this step.
    pub open spec fn unpack(self) -> (LoopState, LoopAction) {
        (self.state, self.action)
    }
}

/// Whether the input tracker `after` is what `effect` makes of `before`.
pub open spec fn input_follows(
    before: InputManager,
    after: InputManager,
    effect: InputEffect,
) -> bool {
    &&& after.window_id() == before.window_id()
    &&& match effect {
        InputEffect::Unchanged => after == before,
        InputEffect::Forwarded(event) => {
            &&& after@ == states_after_event(before@, before.window_id(), event)
            &&& after.modifiers() == modifiers_after_event(
                before.modifiers(),
                before.window_id(),
                event,
            )
            &&& after.cursor_position() == cursor_after_event(
                before.cursor_position(),
                before.window_id(),
                event,
            )
        },
        InputEffect::Aged => {
            &&& after@ == aged(before@)
            &&& after.modifiers() == before.modifiers()
            &&& after.cursor_position() == before.cursor_position()
        },
    }
}

impl LoopState {
    /// The state after `count` more updates of a frame have succeeded, with no
    /// exit requested.
    pub open spec fn after_updates(self, count: nat) -> LoopState
        decreases count,
    {
        if count == 0 {
            self
        } else {
            self.after_updates((count - 1) as nat).next(false, LoopInput::Succeeded).state
        }
    }
}

/// A loop that has ended stays ended: whatever is reported, the state stays
/// as it is, the answer is the exit, the input tracker is left alone, and no
/// menu action is dispatched. No callback fires any more.
pub proof fn lemma_exiting_is_final(state: LoopState, exit_requested: bool, input: LoopInput)
    requires
        state.phase is Exiting,
    ensures
        state.next(exit_requested, input).state == state,
        state.next(exit_requested, input).action == LoopAction::Exit,
        state.next(exit_requested, input).input_effect == InputEffect::Unchanged,
        !state.next(exit_requested, input).dispatches,
{
}

/// A loop that has not started takes no step: the state stays as it is and
/// the answer is to wait.
pub proof fn lemma_initializing_takes_no_step(
    state: LoopState,
    exit_requested: bool,
    input: LoopInput,
)
    requires
        state.phase is Initializing,
    ensures
        state.next(exit_requested, input).state == state,
        state.next(exit_requested, input).action == LoopAction::Wait,
        state.next(exit_requested, input).input_effect == InputEffect::Unchanged,
        !state.next(exit_requested, input).dispatches,
{
}

/// Every failure is terminal: when the application's event handler, the
/// resize of the surface, an update or the draw is reported to have failed,
/// the loop ends, marked as failed, and the answer is the exit. Nothing is
/// tried again. That is so whether or not the application has also asked for
/// the end.
pub proof fn lemma_failure_ends_the_loop(state: LoopState, exit_requested: bool)
    requires
        state.phase is Running,
        state.awaits_outcome(),
    ensures
        state.next(exit_requested, LoopInput::Failed).state.phase is Exiting,
        state.next(exit_requested, LoopInput::Failed).state.failed,
        state.next(exit_requested, LoopInput::Failed).action == LoopAction::Exit,
        state.next(exit_requested, LoopInput::Failed).input_effect == InputEffect::Unchanged,
        !state.next(exit_requested, LoopInput::Failed).dispatches,
{
}

/// The exit request is observed: once the application has asked for the end,
/// the next step of a running loop ends it, whatever is reported, so no
/// further tick is emitted and nothing is drawn. The end is a clean one unless
/// the pending request is reported to have failed.
pub proof fn lemma_exit_request_is_observed(state: LoopState, input: LoopInput)
    requires
        state.phase is Running,
    ensures
        state.next(true, input).state.phase is Exiting,
        state.next(true, input).action == LoopAction::Exit,
        state.next(true, input).input_effect == InputEffect::Unchanged,
        !state.next(true, input).dispatches,
        !(input is Failed) ==> state.next(true, input).state.failed == state.failed,
        input is Failed ==> state.next(true, input).state.failed == (state.failed
            || state.awaits_outcome()),
{
}

/// A close request ends the loop at once and cleanly: the step that routes it
/// answers with the exit and marks no failure.
pub proof fn lemma_close_request_ends_the_loop(
    state: LoopState,
    window_id: u64,
    activation: Option<MenuId>,
)
    requires
        state.phase is Running,
        state.stage == LoopStage::PollingMenu(
            Event::WindowEvent { window_id, event: WindowEvent::CloseRequested },
        ),
    ensures
        state.next(false, LoopInput::MenuActivation(activation)).state.phase is Exiting,
        state.next(false, LoopInput::MenuActivation(activation)).state.failed == state.failed,
        state.next(false, LoopInput::MenuActivation(activation)).action == LoopAction::Exit,
{
}

/// The loop is marked as failed by a reported failure and by nothing else,
/// and the mark is never taken back.
pub proof fn lemma_failed_only_by_failure(state: LoopState, exit_requested: bool, input: LoopInput)
    ensures
        state.failed ==> state.next(exit_requested, input).state.failed,
        !state.failed && state.next(exit_requested, input).state.failed ==> input is Failed
            && state.phase is Running && state.next(exit_requested, input).state.phase
            is Exiting,
{
}

/// No step disturbs the settings, and every step keeps the accumulator below
/// the target frame time. The phase only ever moves from running to exiting.
pub proof fn lemma_step_keeps_the_clock_sound(
    state: LoopState,
    exit_requested: bool,
    input: LoopInput,
)
    requires
        state.wf(),
    ensures
        state.next(exit_requested, input).state.wf(),
        state.next(exit_requested, input).state.target_frame_time == state.target_frame_time,
        state.next(exit_requested, input).state.max_frame_time == state.max_frame_time,
        state.next(exit_requested, input).state.skip_update_after_resize
            == state.skip_update_after_resize,
        state.next(exit_requested, input).state.has_context_menu == state.has_context_menu,
        state.next(exit_requested, input).state.phase == state.phase || (state.phase is Running
            && state.next(exit_requested, input).state.phase is Exiting),
{
    if let LoopInput::Elapsed(raw_delta) = input {
        lemma_ticks_fit(
            state.accumulated_time,
            clamped_delta(raw_delta, state.max_frame_time),
            state.target_frame_time,
        );
    }
}

/// Only the measured time of a frame moves the accumulator: every other step
/// leaves it as it is. In particular a frame whose update phase is left out
/// does not disturb the running total.
pub proof fn lemma_accumulator_moves_with_time_only(
    state: LoopState,
    exit_requested: bool,
    input: LoopInput,
)
    requires
        !(state.phase is Running && !exit_requested && state.stage is SamplingClock
            && input is Elapsed),
    ensures
        state.next(exit_requested, input).state.accumulated_time == state.accumulated_time,
{
}

/// The menu channel is polled once per iteration and an activation is
/// dispatched only on hearing that poll: a step dispatches only in answer to
/// the poll, and asks for the poll only after the application has handled the
/// event (or again, where the poll was not answered).
pub proof fn lemma_one_menu_poll_per_event(
    state: LoopState,
    exit_requested: bool,
    input: LoopInput,
)
    ensures
        state.next(exit_requested, input).dispatches ==> state.stage is PollingMenu && input
            matches LoopInput::MenuActivation(Some(_)),
        state.next(exit_requested, input).action == LoopAction::PollMenu ==> (state.stage
            is HandlingEvent && input is Succeeded) || (state.stage is PollingMenu && !(input
            is MenuActivation)),
        state.next(exit_requested, input).input_effect is Forwarded ==> state.stage
            is PollingMenu && input is MenuActivation,
{
}

/// After `count` of the updates that are still due have succeeded, that many
/// fewer are due and nothing else has changed.
pub proof fn lemma_updates_count_down(state: LoopState, remaining: u64, count: nat)
    requires
        state.phase is Running,
        state.stage == (LoopStage::Updating { remaining }),
        count <= remaining,
    ensures
        state.after_updates(count) == (LoopState {
            stage: LoopStage::Updating { remaining: (remaining - count) as u64 },
            ..state
        }),
    decreases count,
{
    if count > 0 {
        lemma_updates_count_down(state, remaining, (count - 1) as nat);
    }
}

/// The schedule of a frame. On hearing the measured time the loop ages the
/// input states, takes the capped delta into the accumulator, and then asks for
/// exactly as many updates as ticks are due, one after the other for as long
/// as each succeeds, and after the last of them for exactly one draw. With no
/// tick due it asks for the draw at once. After the draw it waits for the next
/// platform event, with what was carried over in the accumulator.
pub proof fn lemma_frame_schedule(state: LoopState, raw_delta: u64)
    requires
        state.wf(),
        state.phase is Running,
        state.stage is SamplingClock,
    ensures
        ({
            let delta = clamped_delta(raw_delta, state.max_frame_time);
            let ticks = ticks_due(
                state.accumulated_time as nat,
                delta as nat,
                state.target_frame_time as nat,
            );
            let rest = carried_over(
                state.accumulated_time as nat,
                delta as nat,
                state.target_frame_time as nat,
            );
            let first = state.next(false, LoopInput::Elapsed(raw_delta));
            let drawing = LoopState {
                stage: LoopStage::Drawing,
                accumulated_time: rest as u64,
                ..state
            };
            &&& first.input_effect == InputEffect::Aged
            &&& first.state.accumulated_time == rest
            &&& rest < state.target_frame_time
            &&& ticks == 0 ==> first.action == LoopAction::Draw && first.state == drawing
            &&& ticks > 0 ==> first.action == LoopAction::Update
            &&& forall|done: nat|
                1 <= done < ticks ==> (#[trigger] first.state.after_updates((done - 1) as nat)).next(
                    false,
                    LoopInput::Succeeded,
                ).action == LoopAction::Update
            &&& ticks > 0 ==> first.state.after_updates((ticks - 1) as nat).next(
                false,
                LoopInput::Succeeded,
            ).action == LoopAction::Draw
            &&& ticks > 0 ==> first.state.after_updates(ticks) == drawing
            &&& drawing.next(false, LoopInput::Succeeded).action == LoopAction::Wait
            &&& drawing.next(false, LoopInput::Succeeded).state == (LoopState {
                stage: LoopStage::Idle,
                ..drawing
            })
        }),
{
    let delta = clamped_delta(raw_delta, state.max_frame_time);
    let ticks = ticks_due(
        state.accumulated_time as nat,
        delta as nat,
        state.target_frame_time as nat,
    );
    lemma_ticks_fit(state.accumulated_time, delta, state.target_frame_time);
    let first = state.next(false, LoopInput::Elapsed(raw_delta));
    if ticks > 0 {
        let remaining = (ticks - 1) as u64;
        assert forall|done: nat| 1 <= done < ticks implies (#[trigger] first.state.after_updates(
            (done - 1) as nat,
        )).next(false, LoopInput::Succeeded).action == LoopAction::Update by {
            lemma_updates_count_down(first.state, remaining, (done - 1) as nat);
        }
        lemma_updates_count_down(first.state, remaining, (ticks - 1) as nat);
    }
}

/// The frame after a resize. Where the policy says so, a successful resize of
/// the surface marks the next frame; that frame leaves out the clock, the
/// aging of the input states and every update, goes straight to its one draw,
/// and clears the mark, so that the frame after it is a full one again. The
/// accumulator is not touched.
pub proof fn lemma_update_is_skipped_once_after_resize(
    state: LoopState,
    window_id: u64,
    activation: Option<MenuId>,
)
    requires
        state.phase is Running,
        state.stage is ResizingSurface,
        state.skip_update_after_resize,
    ensures
        ({
            let redraw = Event::WindowEvent { window_id, event: WindowEvent::RedrawRequested };
            let resized = state.next(false, LoopInput::Succeeded).state;
            let skipped = (LoopState { stage: LoopStage::PollingMenu(redraw), ..resized }).next(
                false,
                LoopInput::MenuActivation(activation),
            );
            let following = (LoopState {
                stage: LoopStage::PollingMenu(redraw),
                ..skipped.state
            }).next(false, LoopInput::MenuActivation(activation));
            &&& resized.skip_update
            &&& resized.stage == LoopStage::Idle
            &&& skipped.action == LoopAction::Draw
            &&& skipped.state.stage == LoopStage::Drawing
            &&& !skipped.state.skip_update
            &&& skipped.state.accumulated_time == state.accumulated_time
            &&& following.action == LoopAction::SampleClock
        }),
{
}

/// The frame loop: the phase and stage it is in, the frame clock, the resize
/// policy, and the dispatch map of the menu actions, which it owns.
pub struct AppLoop<A> {
    phase: LoopPhase,
    stage: LoopStage,
    clock: FrameClock,
    skip_update: bool,
    skip_update_after_resize: bool,
    has_context_menu: bool,
    failed: bool,
    menu_dispatch_map: MenuDispatchMap<A>,
}

impl<A> View for AppLoop<A> {
    type V = LoopState;

    closed spec fn view(&self) -> LoopState {
        LoopState {
            phase: self.phase,
            stage: self.stage,
            target_frame_time: self.clock.target_frame_time(),
            max_frame_time: self.clock.max_frame_time(),
            accumulated_time: self.clock.accumulated_time(),
            skip_update: self.skip_update,
            skip_update_after_resize: self.skip_update_after_resize,
            has_context_menu: self.has_context_menu,
            failed: self.failed,
        }
    }
}

impl<A> AppLoop<A> {
    /// The action registered for each menu item identifier.
    pub closed spec fn menu_actions(&self) -> Map<Seq<char>, A> {
        self.menu_dispatch_map@
    }

    /// Whether every registered menu action may be called.
    pub open spec fn actions_callable(&self) -> bool where A: Fn() {
        forall|id: Seq<char>| #[trigger]
            self.menu_actions().contains_key(id) ==> call_requires(self.menu_actions()[id], ())
    }

    /// A loop that is still initializing, with the given frame clock and menu
    /// actions. `has_context_menu` says whether a context menu is configured,
    /// and `skip_update_after_resize` whether the frame that follows a resize
    /// leaves out its update phase.
    pub fn new(
        clock: FrameClock,
        menu_dispatch_map: MenuDispatchMap<A>,
        has_context_menu: bool,
        skip_update_after_resize: bool,
    ) -> (r: Self)
        ensures
            r@ == (LoopState {
                phase: LoopPhase::Initializing,
                stage: LoopStage::Idle,
                target_frame_time: clock.target_frame_time(),
                max_frame_time: clock.max_frame_time(),
                accumulated_time: clock.accumulated_time(),
                skip_update: false,
                skip_update_after_resize,
                has_context_menu,
                failed: false,
            }),
            r@.wf(),
            r.menu_actions() == menu_dispatch_map@,
    {
        proof {
            use_type_invariant(&clock);
        }
        AppLoop {
            phase: LoopPhase::Initializing,
            stage: LoopStage::Idle,
            clock,
            skip_update: false,
            skip_update_after_resize,
            has_context_menu,
            failed: false,
            menu_dispatch_map,
        }
    }

    /// Whether the loop and `ctx` go by the same frame times, so that the time
    /// step of every update tick is the target frame time of `ctx`.
    pub open spec fn paired_with<W, S>(&self, ctx: &RenderContext<W, S>) -> bool {
        &&& self@.target_frame_time == ctx.target_frame_time()
        &&& self@.max_frame_time == ctx.max_frame_time()
    }

    /// A loop that is still initializing, for the context `ctx`: its frame
    /// clock is at rest and goes by the target and the maximum frame time of
    /// `ctx`. Gives `None` if the target frame time of `ctx` is zero, with
    /// which no clock can be made.
    pub fn for_context<W, S>(
        ctx: &RenderContext<W, S>,
        menu_dispatch_map: MenuDispatchMap<A>,
        has_context_menu: bool,
        skip_update_after_resize: bool,
    ) -> (r: Option<Self>)
        ensures
            r is None <==> ctx.target_frame_time() == 0,
            r matches Some(app_loop) ==> {
                &&& app_loop@ == (LoopState {
                    phase: LoopPhase::Initializing,
                    stage: LoopStage::Idle,
                    target_frame_time: ctx.target_frame_time(),
                    max_frame_time: ctx.max_frame_time(),
                    accumulated_time: 0,
                    skip_update: false,
                    skip_update_after_resize,
                    has_context_menu,
                    failed: false,
                })
                &&& app_loop@.wf()
                &&& app_loop.paired_with(ctx)
                &&& app_loop.menu_actions() == menu_dispatch_map@
            },
    {
        match FrameClock::new(ctx.target_frame_time(), ctx.max_frame_time()) {
            Some(clock) => Some(
                AppLoop::new(clock, menu_dispatch_map, has_context_menu, skip_update_after_resize),
            ),
            None => None,
        }
    }

    /// The loop's state.
    pub fn state(&self) -> (r: LoopState)
        ensures
            r == self@,
            r.wf(),
    {
        LoopState {
            phase: self.phase,
            stage: self.stage,
            target_frame_time: self.clock.target_frame_time(),
            max_frame_time: self.clock.max_frame_time(),
            accumulated_time: self.clock.accumulated_time(),
            skip_update: self.skip_update,
            skip_update_after_resize: self.skip_update_after_resize,
            has_context_menu: self.has_context_menu,
            failed: self.failed,
        }
    }

    /// The phase the loop is in.
    pub fn phase(&self) -> (r: LoopPhase)
        ensures
            r == self@.phase,
    {
        self.phase
    }

    /// Whether a failure was reported to the loop.
    pub fn failed(&self) -> (r: bool)
        ensures
            r == self@.failed,
    {
        self.failed
    }

    /// The request that the loop is waiting to hear about.
    pub fn pending(&self) -> (r: LoopAction)
        ensures
            r == self@.pending(),
    {
        match self.phase {
            LoopPhase::Initializing => LoopAction::Wait,
            LoopPhase::Exiting => LoopAction::Exit,
            LoopPhase::Running => match self.stage {
                LoopStage::Idle => LoopAction::Wait,
                LoopStage::HandlingEvent(_) => LoopAction::HandleEvent,
                LoopStage::PollingMenu(_) => LoopAction::PollMenu,
                LoopStage::ResizingSurface { width, height } => LoopAction::ResizeSurface {
                    width,
                    height,
                },
                LoopStage::SamplingClock => LoopAction::SampleClock,
                LoopStage::Updating { remaining } => LoopAction::Update,
                LoopStage::Drawing => LoopAction::Draw,
            },
        }
    }

    /// Ends the initialization, which happens once. If it succeeded the loop
    /// runs and waits for the first platform event; if it failed the loop has
    /// ended, on a failure, before taking any event. On a loop that is not initializing this
    /// changes nothing and answers with the pending request.
    pub fn start(&mut self, initialized: bool) -> (action: LoopAction)
        ensures
            final(self).menu_actions() == old(self).menu_actions(),
            old(self)@.phase is Initializing && initialized ==> final(self)@ == (LoopState {
                phase: LoopPhase::Running,
                stage: LoopStage::Idle,
                ..old(self)@
            }) && action == LoopAction::Wait,
            old(self)@.phase is Initializing && !initialized ==> final(self)@ == old(
                self,
            )@.fail().state && action == LoopAction::Exit,
            !(old(self)@.phase is Initializing) ==> final(self)@ == old(self)@ && action == old(
                self,
            )@.pending(),
    {
        match self.phase {
            LoopPhase::Initializing => {
                self.stage = LoopStage::Idle;
                if initialized {
                    self.phase = LoopPhase::Running;
                    LoopAction::Wait
                } else {
                    self.fail()
                }
            },
            _ => self.pending(),
        }
    }

    /// Ends the loop on a failure.
    fn fail(&mut self) -> (action: LoopAction)
        ensures
            final(self)@ == old(self)@.fail().state,
            action == old(self)@.fail().action,
            final(self).menu_actions() == old(self).menu_actions(),
    {
        self.phase = LoopPhase::Exiting;
        self.stage = LoopStage::Idle;
        self.failed = true;
        LoopAction::Exit
    }

    /// Ends the loop cleanly.
    fn exit(&mut self) -> (action: LoopAction)
        ensures
            final(self)@ == old(self)@.exit().state,
            action == old(self)@.exit().action,
            final(self).menu_actions() == old(self).menu_actions(),
    {
        self.phase = LoopPhase::Exiting;
        self.stage = LoopStage::Idle;
        LoopAction::Exit
    }

    /// Routes an event that the application and the input tracker have seen.
    fn route(&mut self, event: Event) -> (action: LoopAction)
        ensures
            final(self)@ == old(self)@.route(event).0,
            action == old(self)@.route(event).1,
            final(self).menu_actions() == old(self).menu_actions(),
    {
        match event {
            Event::WindowEvent { window_id, event: WindowEvent::CloseRequested } => self.exit(),
            Event::WindowEvent {
                window_id,
                event: WindowEvent::MouseInput {
                    state: ElementState::Pressed,
                    button: MouseButton::Right,
                },
            } => {
                self.stage = LoopStage::Idle;
                if self.has_context_menu {
                    LoopAction::ShowContextMenu
                } else {
                    LoopAction::Wait
                }
            },
            Event::WindowEvent { window_id, event: WindowEvent::Resized { width, height } } => {
                self.stage = LoopStage::ResizingSurface { width, height };
                LoopAction::ResizeSurface { width, height }
            },
            Event::WindowEvent { window_id, event: WindowEvent::RedrawRequested } => {
                if self.skip_update {
                    self.skip_update = false;
                    self.stage = LoopStage::Drawing;
                    LoopAction::Draw
                } else {
                    self.stage = LoopStage::SamplingClock;
                    LoopAction::SampleClock
                }
            },
            Event::AboutToWait => {
                self.stage = LoopStage::Idle;
                LoopAction::RequestRedraw
            },
            _ => {
                self.stage = LoopStage::Idle;
                LoopAction::Wait
            },
        }
    }

    /// Takes one step: hears what the shell reports and answers with what the
    /// shell has to do next.
    ///
    /// The loop's state and the answer are those of `LoopState::next`. Beside
    /// that, the step that hears the menu poll dispatches the activation, if
    /// there was one, and then hands the event to the input tracker of `ctx`;
    /// the step that hears the measured time ages the input states; and every
    /// step that asks for an update sets the time step of `ctx` to the target
    /// frame time of the loop, which for a loop made for `ctx` is the target
    /// frame time of `ctx`. Nothing else of `ctx` changes, and the registered
    /// menu actions stay as they are.
    ///
    /// Every registered menu action must be callable.
    pub fn step<W, S>(&mut self, ctx: &mut RenderContext<W, S>, input: LoopInput) -> (action:
        LoopAction) where A: Fn()
        requires
            old(self).actions_callable(),
        ensures
            final(self)@ == old(self)@.next(old(ctx).should_exit(), input).state,
            action == old(self)@.next(old(ctx).should_exit(), input).action,
            final(self)@.wf(),
            final(self).menu_actions() == old(self).menu_actions(),
            final(ctx).same_frame_settings(old(ctx)),
            input_follows(
                old(ctx).spec_input(),
                final(ctx).spec_input(),
                old(self)@.next(old(ctx).should_exit(), input).input_effect,
            ),
            final(ctx).delta_time() == if action is Update {
                old(self)@.target_frame_time
            } else {
                old(ctx).delta_time()
            },
            old(self).paired_with(old(ctx)) ==> final(self).paired_with(final(ctx)),
            old(self).paired_with(old(ctx)) && action is Update ==> final(ctx).delta_time()
                == final(ctx).target_frame_time(),
            old(self)@.next(old(ctx).should_exit(), input).dispatches ==> (input matches LoopInput::MenuActivation(
                Some(menu_id),
            ) && (old(self).menu_actions().contains_key(menu_id@) ==> call_ensures(
                old(self).menu_actions()[menu_id@],
                (),
                (),
            ))),
    {
        proof {
            use_type_invariant(&self.clock);
        }
        match self.phase {
            LoopPhase::Exiting => {
                return LoopAction::Exit;
            },
            LoopPhase::Initializing => {
                return LoopAction::Wait;
            },
            LoopPhase::Running => {},
        }
        if ctx.should_exit() {
            let failure = match input {
                LoopInput::Failed => match self.stage {
                    LoopStage::HandlingEvent(_)
                    | LoopStage::ResizingSurface { .. }
                    | LoopStage::Updating { .. }
                    | LoopStage::Drawing => true,
                    _ => false,
                },
                _ => false,
            };
            if failure {
                return self.fail();
            }
            return self.exit();
        }
        match self.stage {
            LoopStage::Idle => match input {
                LoopInput::Event(event) => {
                    self.stage = LoopStage::HandlingEvent(event);
                    LoopAction::HandleEvent
                },
                _ => LoopAction::Wait,
            },
            LoopStage::HandlingEvent(event) => match input {
                LoopInput::Succeeded => {
                    self.stage = LoopStage::PollingMenu(event);
                    LoopAction::PollMenu
                },
                LoopInput::Failed => self.fail(),
                _ => LoopAction::HandleEvent,
            },
            LoopStage::PollingMenu(event) => match input {
                LoopInput::MenuActivation(activation) => {
                    match activation {
                        Some(menu_id) => {
                            assert(self.menu_actions().contains_key(menu_id@) ==> call_requires(
                                self.menu_actions()[menu_id@],
                                (),
                            ));
                            self.menu_dispatch_map.dispatch(&menu_id);
                        },
                        None => {},
                    }
                    ctx.handle_event(&event);
                    self.route(event)
                },
                _ => LoopAction::PollMenu,
            },
            LoopStage::ResizingSurface { width, height } => match input {
                LoopInput::Succeeded => {
                    if self.skip_update_after_resize {
                        self.skip_update = true;
                    }
                    self.stage = LoopStage::Idle;
                    LoopAction::Wait
                },
                LoopInput::Failed => self.fail(),
                _ => LoopAction::ResizeSurface { width, height },
            },
            LoopStage::SamplingClock => match input {
                LoopInput::Elapsed(raw_delta) => {
                    let ticks: u64 = self.clock.advance(raw_delta);
                    ctx.begin_frame();
                    if ticks > 0 {
                        ctx.set_delta_time(self.clock.target_frame_time());
                        self.stage = LoopStage::Updating { remaining: ticks - 1 };
                        LoopAction::Update
                    } else {
                        self.stage = LoopStage::Drawing;
                        LoopAction::Draw
                    }
                },
                _ => LoopAction::SampleClock,
            },
            LoopStage::Updating { remaining } => match input {
                LoopInput::Succeeded => {
                    if remaining > 0 {
                        ctx.set_delta_time(self.clock.target_frame_time());
                        self.stage = LoopStage::Updating { remaining: remaining - 1 };
                        LoopAction::Update
                    } else {
                        self.stage = LoopStage::Drawing;
                        LoopAction::Draw
                    }
                },
                LoopInput::Failed => self.fail(),
                _ => {
                    ctx.set_delta_time(self.clock.target_frame_time());
                    LoopAction::Update
                },
            },
            LoopStage::Drawing => match input {
                LoopInput::Succeeded => {
                    self.stage = LoopStage::Idle;
                    LoopAction::Wait
                },
                LoopInput::Failed => self.fail(),
                _ => LoopAction::Draw,
            },
        }
    }
}

} // verus!
