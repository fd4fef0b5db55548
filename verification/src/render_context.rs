//! The state that is handed to every update and draw call.

use crate::event::{CursorPosition, Event};
use crate::input::{
    aged, cursor_after_event, modifiers_after_event, states_after_event, InputManager, InputState,
    InputType, KeyboardModifiers,
};
use vstd::prelude::*;

verus! {

/// Update context: owns the window handle `W`, the presentation surface `S`
/// and the input tracker, and carries the time step of the current update
/// tick. It is created once before the loop starts and lives as long as the
/// loop. All times are in nanoseconds.
#[derive(Debug)]
pub struct RenderContext<W, S> {
    window: W,
    target_frame_time: u64,
    max_frame_time: u64,
    should_exit: bool,
    delta_time: u64,
    pub input: InputManager,
    pixels: S,
}

impl<W, S> RenderContext<W, S> {
    /// The window handle.
    pub closed spec fn spec_window(&self) -> W {
        self.window
    }

    /// The presentation surface.
    pub closed spec fn spec_pixels(&self) -> S {
        self.pixels
    }

    /// The target frame time.
    pub closed spec fn spec_target_frame_time(&self) -> u64 {
        self.target_frame_time
    }

    /// The maximum frame time.
    pub closed spec fn spec_max_frame_time(&self) -> u64 {
        self.max_frame_time
    }

    /// The time step of the current update tick.
    pub closed spec fn spec_delta_time(&self) -> u64 {
        self.delta_time
    }

    /// Whether the application has asked the loop to end.
    pub closed spec fn spec_should_exit(&self) -> bool {
        self.should_exit
    }

    /// The input tracker.
    pub closed spec fn spec_input(&self) -> InputManager {
        self.input
    }

    /// Whether the two frame times, the time step, the exit request and the
    /// input tracker are as in `other`: everything but the window handle and
    /// the presentation surface.
    pub open spec fn same_state(&self, other: &Self) -> bool {
        &&& self.target_frame_time() == other.target_frame_time()
        &&& self.max_frame_time() == other.max_frame_time()
        &&& self.delta_time() == other.delta_time()
        &&& self.should_exit() == other.should_exit()
        &&& self.spec_input() == other.spec_input()
    }

    /// Create new Context for the window `window` with the identifier
    /// `window_id`, drawing to the surface `pixels`. No exit is requested, the
    /// time step is zero, and the input tracker follows that window and tracks
    /// nothing yet.
    pub fn new(
        window: W,
        window_id: u64,
        pixels: S,
        target_frame_time: u64,
        max_frame_time: u64,
    ) -> (r: Self)
        ensures
            r.spec_window() == window,
            r.spec_pixels() == pixels,
            r.target_frame_time() == target_frame_time,
            r.max_frame_time() == max_frame_time,
            r.delta_time() == 0,
            !r.should_exit(),
            r.spec_input()@ == Map::<InputType, InputState>::empty(),
            r.spec_input().window_id() == window_id,
            r.spec_input().modifiers() == KeyboardModifiers::none(),
            r.spec_input().cursor_position() == (CursorPosition { x_bits: 0, y_bits: 0 }),
    {
        Self {
            window,
            target_frame_time,
            max_frame_time,
            should_exit: false,
            delta_time: 0,
            input: InputManager::new(window_id),
            pixels,
        }
    }

    /// Get the window
    pub fn window(&self) -> (r: &W)
        ensures
            *r == self.spec_window(),
    {
        &self.window
    }

    /// Get the window (mutable). Whatever the caller does through the
    /// reference changes the window handle and nothing else.
    pub fn window_mut(&mut self) -> (r: &mut W)
        ensures
            *r == old(self).spec_window(),
            final(self).spec_window() == *final(r),
            final(self).spec_pixels() == old(self).spec_pixels(),
            final(self).same_state(old(self)),
    {
        &mut self.window
    }

    /// Get the presentation surface (mutable). Whatever the caller does
    /// through the reference changes the surface and nothing else.
    pub fn pixels_mut(&mut self) -> (r: &mut S)
        ensures
            *r == old(self).spec_pixels(),
            final(self).spec_pixels() == *final(r),
            final(self).spec_window() == old(self).spec_window(),
            final(self).same_state(old(self)),
    {
        &mut self.pixels
    }

    /// Get the input tracker
    pub fn input(&self) -> (r: &InputManager)
        ensures
            *r == self.spec_input(),
    {
        &self.input
    }

    /// Get the target frame time
    #[verifier::when_used_as_spec(spec_target_frame_time)]
    pub fn target_frame_time(&self) -> (r: u64)
        ensures
            r == self.spec_target_frame_time(),
    {
        self.target_frame_time
    }

    /// Get the maximum frame time
    #[verifier::when_used_as_spec(spec_max_frame_time)]
    pub fn max_frame_time(&self) -> (r: u64)
        ensures
            r == self.spec_max_frame_time(),
    {
        self.max_frame_time
    }

    /// Get the time step of the current update tick
    #[verifier::when_used_as_spec(spec_delta_time)]
    pub fn delta_time(&self) -> (r: u64)
        ensures
            r == self.spec_delta_time(),
    {
        self.delta_time
    }

    /// Whether the application has asked the loop to end.
    #[verifier::when_used_as_spec(spec_should_exit)]
    pub fn should_exit(&self) -> (r: bool)
        ensures
            r == self.spec_should_exit(),
    {
        self.should_exit
    }

    /// Set if the app should exit. The loop sees the request at its next step
    /// and emits no further tick. Nothing else changes.
    pub fn exit(&mut self)
        ensures
            final(self).should_exit(),
            final(self).spec_window() == old(self).spec_window(),
            final(self).spec_pixels() == old(self).spec_pixels(),
            final(self).target_frame_time() == old(self).target_frame_time(),
            final(self).max_frame_time() == old(self).max_frame_time(),
            final(self).delta_time() == old(self).delta_time(),
            final(self).spec_input() == old(self).spec_input(),
    {
        self.should_exit = true;
    }

    /// Whether everything but the input tracker and the time step is as in
    /// `other`: the window handle, the surface, the two frame times and the
    /// exit request.
    pub open spec fn same_frame_settings(&self, other: &Self) -> bool {
        &&& self.spec_window() == other.spec_window()
        &&& self.spec_pixels() == other.spec_pixels()
        &&& self.target_frame_time() == other.target_frame_time()
        &&& self.max_frame_time() == other.max_frame_time()
        &&& self.should_exit() == other.should_exit()
    }

    /// Hands one event of the loop to the input tracker. Nothing else changes.
    pub(crate) fn handle_event(&mut self, event: &Event)
        ensures
            final(self).same_frame_settings(old(self)),
            final(self).delta_time() == old(self).delta_time(),
            final(self).spec_input()@ == states_after_event(
                old(self).spec_input()@,
                old(self).spec_input().window_id(),
                *event,
            ),
            final(self).spec_input().modifiers() == modifiers_after_event(
                old(self).spec_input().modifiers(),
                old(self).spec_input().window_id(),
                *event,
            ),
            final(self).spec_input().cursor_position() == cursor_after_event(
                old(self).spec_input().cursor_position(),
                old(self).spec_input().window_id(),
                *event,
            ),
            final(self).spec_input().window_id() == old(self).spec_input().window_id(),
    {
        self.input.handle_event(event);
    }

    /// Starts a frame: ages the tracked input states by one frame. Nothing
    /// else changes.
    pub(crate) fn begin_frame(&mut self)
        ensures
            final(self).same_frame_settings(old(self)),
            final(self).delta_time() == old(self).delta_time(),
            final(self).spec_input()@ == aged(old(self).spec_input()@),
            final(self).spec_input().modifiers() == old(self).spec_input().modifiers(),
            final(self).spec_input().cursor_position() == old(
                self,
            ).spec_input().cursor_position(),
            final(self).spec_input().window_id() == old(self).spec_input().window_id(),
    {
        self.input.update();
    }

    /// Sets the time step that the next update tick sees. Nothing else changes.
    pub(crate) fn set_delta_time(&mut self, delta_time: u64)
        ensures
            final(self).same_frame_settings(old(self)),
            final(self).delta_time() == delta_time,
            final(self).spec_input() == old(self).spec_input(),
    {
        self.delta_time = delta_time;
    }
}

} // verus!
