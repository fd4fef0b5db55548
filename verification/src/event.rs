//! The event vocabulary of the shell.
//!
//! The native event loop hands the shell one platform event per iteration. The
//! types here hold, as plain values, exactly the parts of such an event that the
//! shell's rules read: which window it was sent to, which key or button changed,
//! whether the change was a press or a release, and the few window notifications
//! that drive the frame loop.

use vstd::prelude::*;

verus! {

/// Whether a key or button went down or came up.
#[derive(Debug, Clone, Copy, PartialEq, Eq, Hash, Structural)]
pub enum ElementState {
    Pressed,
    Released,
}

/// A button of the pointing device.
#[derive(Debug, Clone, Copy, PartialEq, Eq, Hash, Structural)]
pub enum MouseButton {
    Left,
    Right,
    Middle,
    Back,
    Forward,
    /// Any further button, by the number the platform gives it.
    Other(u16),
}

/// A key of the keyboard, named by its position: the number the platform layer
/// assigns to the physical key, independent of the active layout.
#[derive(Debug, Clone, Copy, PartialEq, Eq, Hash, Structural)]
pub struct KeyCode(pub u32);

/// The physical key of a keyboard event.
#[derive(Debug, Clone, Copy, PartialEq, Eq, Hash, Structural)]
pub enum PhysicalKey {
    /// A key the platform layer could name.
    Code(KeyCode),
    /// A key without a known code; such events carry no input symbol.
    Unidentified,
}

/// What is known about one modifier key.
#[derive(Debug, Clone, Copy, PartialEq, Eq, Hash, Structural)]
pub enum ModifiersKeyState {
    /// The key is known to be held.
    Pressed,
    /// Nothing is known; the key counts as not held.
    Unknown,
}

/// The modifier keys as one modifier-change notification reports them.
#[derive(Debug, Clone, Copy, PartialEq, Eq, Hash, Structural)]
pub struct Modifiers {
    pub lshift_state: ModifiersKeyState,
    pub rshift_state: ModifiersKeyState,
    pub lalt_state: ModifiersKeyState,
    pub ralt_state: ModifiersKeyState,
    pub lcontrol_state: ModifiersKeyState,
    pub rcontrol_state: ModifiersKeyState,
    pub lsuper_state: ModifiersKeyState,
    pub rsuper_state: ModifiersKeyState,
}

/// A position of the cursor inside a window, in physical pixels. Each coordinate
/// is kept as the bit pattern of its IEEE 754 double, so that the value passes
/// through unchanged.
#[derive(Debug, Clone, Copy, PartialEq, Eq, Hash, Structural)]
pub struct CursorPosition {
    pub x_bits: u64,
    pub y_bits: u64,
}

/// An event sent to one window.
#[derive(Debug, Clone, Copy, PartialEq, Eq, Hash, Structural)]
pub enum WindowEvent {
    /// A key changed state. `repeat` marks a press generated by holding the key,
    /// `is_synthetic` one made up by the platform layer (on focus changes).
    KeyboardInput { physical_key: PhysicalKey, state: ElementState, repeat: bool, is_synthetic: bool },
    /// The set of held modifier keys changed.
    ModifiersChanged(Modifiers),
    /// The cursor moved inside the window.
    CursorMoved { position: CursorPosition },
    /// A mouse button changed state.
    MouseInput { state: ElementState, button: MouseButton },
    /// The user asked to close the window.
    CloseRequested,
    /// The window's drawable area now has this size in physical pixels.
    Resized { width: u32, height: u32 },
    /// The window should be drawn again.
    RedrawRequested,
    /// Any other window event; the shell only forwards it to the application.
    Other,
}

/// An event of the native event loop.
#[derive(Debug, Clone, Copy, PartialEq, Eq, Hash, Structural)]
pub enum Event {
    /// An event sent to the window with the given identifier.
    WindowEvent { window_id: u64, event: WindowEvent },
    /// All pending events were delivered; the loop is about to wait.
    AboutToWait,
    /// Any other event; the shell only forwards it to the application.
    Other,
}

} // verus!
