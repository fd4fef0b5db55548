//! A desktop application shell: a fixed-timestep update and draw loop on top
//! of a native window, with input-state tracking and menu-event dispatch.
//!
//! The crate holds the rules of the shell and proves them. The native event
//! loop, the window, the menus and the presentation surface stay outside: the
//! code that runs them reports to `app::AppLoop` what happened and does what
//! it answers.

pub mod app;
pub mod app_settings;
pub mod event;
pub mod frame_clock;
pub mod input;
pub mod menu;
pub mod render_context;

pub use app::{AppLoop, InputEffect, LoopAction, LoopInput, LoopPhase, LoopStage, LoopState};
pub use app_settings::{AppBuilder, AppSettings};
pub use frame_clock::FrameClock;
pub use input::{InputManager, InputState, InputType, KeyboardModifiers};
pub use render_context::RenderContext;
