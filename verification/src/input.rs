//! Input tracking: turns the press and release edges of keys and mouse buttons
//! into a per-frame state for each input symbol.

use crate::event::{
    CursorPosition, ElementState, Event, KeyCode, Modifiers, ModifiersKeyState, MouseButton,
    PhysicalKey, WindowEvent,
};
use std::collections::HashMap;
use vstd::prelude::*;

verus! {

/// The state of keyboard modifiers.
#[derive(Clone, Copy, Debug, PartialEq, Eq, Structural)]
pub struct KeyboardModifiers {
    /// Left "shift" key.
    pub left_shift: bool,
    /// Right "shift" key.
    pub right_shift: bool,
    /// Left "alt" key.
    pub left_alt: bool,
    /// Right "alt" key.
    pub right_alt: bool,
    /// Left "control" key.
    pub left_control: bool,
    /// Right "control" key.
    pub right_control: bool,
    /// Left "super" key. This is the "windows" key on PC and "command" key on Mac.
    pub left_super: bool,
    /// Right "super" key. This is the "windows" key on PC and "command" key on Mac.
    pub right_super: bool,
}

impl KeyboardModifiers {
    /// The modifier set that a notification describes: a key is held exactly
    /// when the notification reports it as pressed.
    pub open spec fn of(mods: Modifiers) -> KeyboardModifiers {
        KeyboardModifiers {
            left_shift: mods.lshift_state == ModifiersKeyState::Pressed,
            right_shift: mods.rshift_state == ModifiersKeyState::Pressed,
            left_alt: mods.lalt_state == ModifiersKeyState::Pressed,
            right_alt: mods.ralt_state == ModifiersKeyState::Pressed,
            left_control: mods.lcontrol_state == ModifiersKeyState::Pressed,
            right_control: mods.rcontrol_state == ModifiersKeyState::Pressed,
            left_super: mods.lsuper_state == ModifiersKeyState::Pressed,
            right_super: mods.rsuper_state == ModifiersKeyState::Pressed,
        }
    }

    /// The modifier set in which no key is held.
    pub open spec fn none() -> KeyboardModifiers {
        KeyboardModifiers {
            left_shift: false,
            right_shift: false,
            left_alt: false,
            right_alt: false,
            left_control: false,
            right_control: false,
            left_super: false,
            right_super: false,
        }
    }

    /// Recomputes every modifier from one modifier-change notification. Nothing
    /// of the previous value survives.
    pub fn update(&mut self, mods: &Modifiers)
        ensures
            *final(self) == Self::of(*mods),
    {
        self.left_shift = mods.lshift_state == ModifiersKeyState::Pressed;
        self.right_shift = mods.rshift_state == ModifiersKeyState::Pressed;
        self.left_alt = mods.lalt_state == ModifiersKeyState::Pressed;
        self.right_alt = mods.ralt_state == ModifiersKeyState::Pressed;
        self.left_control = mods.lcontrol_state == ModifiersKeyState::Pressed;
        self.right_control = mods.rcontrol_state == ModifiersKeyState::Pressed;
        self.left_super = mods.lsuper_state == ModifiersKeyState::Pressed;
        self.right_super = mods.rsuper_state == ModifiersKeyState::Pressed;
    }
}

impl Default for KeyboardModifiers {
    /// No modifier is held.
    fn default() -> (r: Self)
        ensures
            r == KeyboardModifiers::none(),
    {
        KeyboardModifiers {
            left_shift: false,
            right_shift: false,
            left_alt: false,
            right_alt: false,
            left_control: false,
            right_control: false,
            left_super: false,
            right_super: false,
        }
    }
}

/// The state of a key or button.
#[derive(Debug, Clone, Copy, PartialEq, Eq, Hash, Structural)]
pub enum InputState {
    /// The input was pressed this frame.
    Pressed,
    /// The input is currently held down.
    Down,
    /// The input was released this frame.
    Released,
}

impl vstd::std_specs::convert::FromSpecImpl<ElementState> for InputState {
    open spec fn obeys_from_spec() -> bool {
        true
    }

    open spec fn from_spec(state: ElementState) -> InputState {
        match state {
            ElementState::Pressed => InputState::Pressed,
            ElementState::Released => InputState::Released,
        }
    }
}

impl From<ElementState> for InputState {
    /// The state that a single edge produces on an input nothing is known of.
    fn from(state: ElementState) -> (r: Self) {
        match state {
            ElementState::Pressed => Self::Pressed,
            ElementState::Released => Self::Released,
        }
    }
}

/// An input symbol: a key of the keyboard or a button of the mouse.
#[derive(Debug, Clone, Copy, PartialEq, Eq, Hash, Structural)]
pub enum InputType {
    Key(KeyCode),
    Mouse(MouseButton),
}

/// The first slot of the mouse buttons; the slots below belong to the keys.
pub const MOUSE_SLOT_BASE: u64 = 0x1_0000_0000;

impl InputType {
    /// The number under which the tracker files this symbol. Keys take the
    /// numbers below `MOUSE_SLOT_BASE`, the five named mouse buttons the next
    /// five, and the numbered buttons follow.
    pub open spec fn spec_slot(self) -> u64 {
        match self {
            InputType::Key(code) => code.0 as u64,
            InputType::Mouse(MouseButton::Left) => MOUSE_SLOT_BASE,
            InputType::Mouse(MouseButton::Right) => (MOUSE_SLOT_BASE + 1) as u64,
            InputType::Mouse(MouseButton::Middle) => (MOUSE_SLOT_BASE + 2) as u64,
            InputType::Mouse(MouseButton::Back) => (MOUSE_SLOT_BASE + 3) as u64,
            InputType::Mouse(MouseButton::Forward) => (MOUSE_SLOT_BASE + 4) as u64,
            InputType::Mouse(MouseButton::Other(n)) => (MOUSE_SLOT_BASE + 5 + n) as u64,
        }
    }

    /// Computes the slot of this symbol.
    #[verifier::when_used_as_spec(spec_slot)]
    pub fn slot(self) -> (k: u64)
        ensures
            k == self.spec_slot(),
    {
        match self {
            InputType::Key(code) => code.0 as u64,
            InputType::Mouse(MouseButton::Left) => MOUSE_SLOT_BASE,
            InputType::Mouse(MouseButton::Right) => MOUSE_SLOT_BASE + 1,
            InputType::Mouse(MouseButton::Middle) => MOUSE_SLOT_BASE + 2,
            InputType::Mouse(MouseButton::Back) => MOUSE_SLOT_BASE + 3,
            InputType::Mouse(MouseButton::Forward) => MOUSE_SLOT_BASE + 4,
            InputType::Mouse(MouseButton::Other(n)) => MOUSE_SLOT_BASE + 5 + n as u64,
        }
    }

    /// Two symbols share a slot only if they are the same symbol.
    pub proof fn lemma_slot_injective(a: InputType, b: InputType)
        ensures
            a.slot() == b.slot() <==> a == b,
    {
    }
}

/// The state that a press leaves on a symbol whose state was `prev`: a rising
/// edge where the symbol was untracked or released, a continued hold where it
/// was already pressed or down.
pub open spec fn press_transition(prev: Option<InputState>) -> InputState {
    match prev {
        Some(InputState::Pressed) | Some(InputState::Down) => InputState::Down,
        Some(InputState::Released) | None => InputState::Pressed,
    }
}

/// The tracked states after one raw edge on `symbol`. A release sets the entry
/// to `Released` whatever it was before.
pub open spec fn raw_event_applied(
    states: Map<InputType, InputState>,
    symbol: InputType,
    is_press: bool,
) -> Map<InputType, InputState> {
    if is_press {
        states.insert(symbol, press_transition(states.get(symbol)))
    } else {
        states.insert(symbol, InputState::Released)
    }
}

/// The tracked states after the per-frame aging step: `Pressed` becomes `Down`,
/// `Down` stays, and `Released` entries are dropped.
pub open spec fn aged(states: Map<InputType, InputState>) -> Map<InputType, InputState> {
    Map::new(
        |s: InputType| states.contains_key(s) && states[s] != InputState::Released,
        |s: InputType|
            if states[s] == InputState::Pressed {
                InputState::Down
            } else {
                states[s]
            },
    )
}

/// Whether `symbol` counts as pressed this frame.
pub open spec fn is_pressed(states: Map<InputType, InputState>, symbol: InputType) -> bool {
    states.get(symbol) == Some(InputState::Pressed)
}

/// Whether `symbol` counts as held: pressed this frame or down since an earlier one.
pub open spec fn is_down(states: Map<InputType, InputState>, symbol: InputType) -> bool {
    states.get(symbol) == Some(InputState::Pressed) || states.get(symbol) == Some(
        InputState::Down,
    )
}

/// Whether `symbol` counts as released this frame.
pub open spec fn is_released(states: Map<InputType, InputState>, symbol: InputType) -> bool {
    states.get(symbol) == Some(InputState::Released)
}

/// The symbol and edge (`true` for a press) that a window event carries, if it
/// carries one. Keyboard events count only if they are neither synthetic nor
/// repeats and name their key; every mouse button event counts.
pub open spec fn raw_edge(event: WindowEvent) -> Option<(InputType, bool)> {
    match event {
        WindowEvent::KeyboardInput { physical_key, state, repeat, is_synthetic } => {
            if !is_synthetic && !repeat && physical_key is Code {
                Some((InputType::Key(physical_key->Code_0), state == ElementState::Pressed))
            } else {
                None
            }
        },
        WindowEvent::MouseInput { state, button } => Some(
            (InputType::Mouse(button), state == ElementState::Pressed),
        ),
        _ => None,
    }
}

/// The window event that `event` delivers to the window `window_id`, if any.
pub open spec fn addressed_to(window_id: u64, event: Event) -> Option<WindowEvent> {
    match event {
        Event::WindowEvent { window_id: id, event: inner } => if id == window_id {
            Some(inner)
        } else {
            None
        },
        _ => None,
    }
}

/// The tracked states of the tracker of window `window_id` after `event`.
pub open spec fn states_after_event(
    states: Map<InputType, InputState>,
    window_id: u64,
    event: Event,
) -> Map<InputType, InputState> {
    match addressed_to(window_id, event) {
        Some(inner) => match raw_edge(inner) {
            Some((symbol, is_press)) => raw_event_applied(states, symbol, is_press),
            None => states,
        },
        None => states,
    }
}

/// The modifier set of the tracker of window `window_id` after `event`.
pub open spec fn modifiers_after_event(
    modifiers: KeyboardModifiers,
    window_id: u64,
    event: Event,
) -> KeyboardModifiers {
    match addressed_to(window_id, event) {
        Some(WindowEvent::ModifiersChanged(mods)) => KeyboardModifiers::of(mods),
        _ => modifiers,
    }
}

/// The cursor position of the tracker of window `window_id` after `event`.
pub open spec fn cursor_after_event(
    cursor: CursorPosition,
    window_id: u64,
    event: Event,
) -> CursorPosition {
    match addressed_to(window_id, event) {
        Some(WindowEvent::CursorMoved { position }) => position,
        _ => cursor,
    }
}

/// A symbol without an entry is neutral: it counts as neither pressed, nor
/// down, nor released.
pub proof fn lemma_untracked_is_neutral(states: Map<InputType, InputState>, symbol: InputType)
    requires
        !states.contains_key(symbol),
    ensures
        !is_pressed(states, symbol),
        !is_down(states, symbol),
        !is_released(states, symbol),
{
}

/// A symbol stays untracked for as long as no event names it: neither an edge
/// on another symbol nor the aging step gives it an entry.
pub proof fn lemma_untracked_stays_untracked(
    states: Map<InputType, InputState>,
    symbol: InputType,
    other: InputType,
    is_press: bool,
)
    requires
        !states.contains_key(symbol),
        other != symbol,
    ensures
        !raw_event_applied(states, other, is_press).contains_key(symbol),
        !aged(states).contains_key(symbol),
{
}

/// An edge on one symbol leaves the state of every other symbol as it was.
pub proof fn lemma_edge_is_local(
    states: Map<InputType, InputState>,
    symbol: InputType,
    other: InputType,
    is_press: bool,
)
    requires
        other != symbol,
    ensures
        raw_event_applied(states, symbol, is_press).get(other) == states.get(other),
{
}

/// An event leaves the state of a symbol as it was unless it carries an edge
/// on that very symbol and is addressed to the tracker's window. So a symbol
/// that no event has named has no entry.
pub proof fn lemma_event_is_local(
    states: Map<InputType, InputState>,
    window_id: u64,
    event: Event,
    symbol: InputType,
)
    requires
        !(addressed_to(window_id, event) matches Some(inner) && raw_edge(inner) matches Some(
            (named, _),
        ) && named == symbol),
    ensures
        states_after_event(states, window_id, event).get(symbol) == states.get(symbol),
        states_after_event(states, window_id, event).contains_key(symbol) == states.contains_key(
            symbol,
        ),
{
}

/// A press of a symbol that is not held (untracked or released) is a rising
/// edge: in the same frame the symbol is pressed and down, and not released.
pub proof fn lemma_press_is_rising_edge(states: Map<InputType, InputState>, symbol: InputType)
    requires
        !is_down(states, symbol),
    ensures
        is_pressed(raw_event_applied(states, symbol, true), symbol),
        is_down(raw_event_applied(states, symbol, true), symbol),
        !is_released(raw_event_applied(states, symbol, true), symbol),
{
}

/// After a press and the aging step the symbol is held but no longer freshly
/// pressed, whatever its state was before the press.
pub proof fn lemma_press_then_age_is_held(states: Map<InputType, InputState>, symbol: InputType)
    ensures
        !is_pressed(aged(raw_event_applied(states, symbol, true)), symbol),
        is_down(aged(raw_event_applied(states, symbol, true)), symbol),
        !is_released(aged(raw_event_applied(states, symbol, true)), symbol),
{
}

/// A press and a release within one frame leave the symbol released for that
/// frame; the aging step then removes the entry, so in the next frame the
/// symbol is neutral again: a release is visible for one frame.
pub proof fn lemma_press_release_in_one_frame(
    states: Map<InputType, InputState>,
    symbol: InputType,
)
    ensures
        ({
            let after = raw_event_applied(raw_event_applied(states, symbol, true), symbol, false);
            &&& after.get(symbol) == Some(InputState::Released)
            &&& is_released(after, symbol)
            &&& !is_pressed(after, symbol)
            &&& !is_down(after, symbol)
            &&& !aged(after).contains_key(symbol)
            &&& !is_released(aged(after), symbol)
        }),
{
}

/// A release is visible for one frame whatever came before it, and the press
/// that follows the aging step is a fresh rising edge.
pub proof fn lemma_release_is_consumed(states: Map<InputType, InputState>, symbol: InputType)
    ensures
        is_released(raw_event_applied(states, symbol, false), symbol),
        !aged(raw_event_applied(states, symbol, false)).contains_key(symbol),
        is_pressed(
            raw_event_applied(aged(raw_event_applied(states, symbol, false)), symbol, true),
            symbol,
        ),
{
}

/// A press of a symbol that is already held, pressed this frame or down, leaves
/// it down: a repeated press gives no second rising edge.
pub proof fn lemma_repeated_press_stays_down(
    states: Map<InputType, InputState>,
    symbol: InputType,
)
    requires
        is_down(states, symbol),
    ensures
        raw_event_applied(states, symbol, true).get(symbol) == Some(InputState::Down),
        !is_pressed(raw_event_applied(states, symbol, true), symbol),
        is_down(raw_event_applied(states, symbol, true), symbol),
{
}

/// After the aging step every tracked symbol is down, and the symbols tracked
/// are those that were tracked and not released.
pub proof fn lemma_aged_entries_are_down(states: Map<InputType, InputState>, symbol: InputType)
    ensures
        aged(states).contains_key(symbol) <==> is_down(states, symbol),
        aged(states).contains_key(symbol) ==> aged(states)[symbol] == InputState::Down,
        aged(aged(states)) == aged(states),
{
    assert(aged(aged(states)) =~= aged(states));
}

/// Tracks the input of one window: for each key and mouse button whether it
/// was pressed this frame, is held, or was released this frame, and beside
/// that the modifier keys and the cursor position.
///
/// Feed it every event of the loop with `handle_event`, and call `update` once
/// per frame after the frame's events and before anything queries the state.
/// A symbol without an entry is neutral: not pressed, not down, not released.
#[derive(Debug)]
pub struct InputManager {
    window_id: u64,
    input_map: HashMap<u64, InputState>,
    key_modifiers: KeyboardModifiers,
    cursor_position: CursorPosition,
}

impl View for InputManager {
    type V = Map<InputType, InputState>;

    /// The tracked states: the entry of each symbol that has one.
    closed spec fn view(&self) -> Map<InputType, InputState> {
        Map::new(
            |s: InputType| self.input_map@.contains_key(s.slot()),
            |s: InputType| self.input_map@[s.slot()],
        )
    }
}

impl InputManager {
    /// The window whose events this tracker follows.
    pub closed spec fn spec_window_id(&self) -> u64 {
        self.window_id
    }

    /// The modifier keys as last reported.
    pub closed spec fn spec_modifiers(&self) -> KeyboardModifiers {
        self.key_modifiers
    }

    /// The cursor position as last reported.
    pub closed spec fn spec_cursor_position(&self) -> CursorPosition {
        self.cursor_position
    }

    /// Creates a new input manager for the window `window_id`: nothing is
    /// tracked, no modifier is held, and the cursor is at the origin.
    pub fn new(window_id: u64) -> (r: Self)
        ensures
            r@ == Map::<InputType, InputState>::empty(),
            r.window_id() == window_id,
            r.modifiers() == KeyboardModifiers::none(),
            r.cursor_position() == (CursorPosition { x_bits: 0, y_bits: 0 }),
    {
        let r = Self {
            window_id,
            input_map: HashMap::new(),
            key_modifiers: KeyboardModifiers::default(),
            cursor_position: CursorPosition { x_bits: 0, y_bits: 0 },
        };
        assert(r@ =~= Map::<InputType, InputState>::empty());
        r
    }

    /// The window whose events this tracker follows.
    #[verifier::when_used_as_spec(spec_window_id)]
    pub fn window_id(&self) -> (r: u64)
        ensures
            r == self.spec_window_id(),
    {
        self.window_id
    }

    /// The modifier keys as last reported.
    #[verifier::when_used_as_spec(spec_modifiers)]
    pub fn modifiers(&self) -> (r: KeyboardModifiers)
        ensures
            r == self.spec_modifiers(),
    {
        self.key_modifiers
    }

    /// The cursor position as last reported.
    #[verifier::when_used_as_spec(spec_cursor_position)]
    pub fn cursor_position(&self) -> (r: CursorPosition)
        ensures
            r == self.spec_cursor_position(),
    {
        self.cursor_position
    }

    /// Applies one raw edge to `symbol`. A press makes an untracked or released
    /// symbol `Pressed` and a pressed or held one `Down`, so that repeated
    /// presses of a held key give no second rising edge. A release makes the
    /// symbol `Released` whatever it was.
    pub fn handle_raw_event(&mut self, symbol: InputType, is_press: bool)
        ensures
            final(self)@ == raw_event_applied(old(self)@, symbol, is_press),
            final(self).window_id() == old(self).window_id(),
            final(self).modifiers() == old(self).modifiers(),
            final(self).cursor_position() == old(self).cursor_position(),
    {
        let slot: u64 = symbol.slot();
        let next = if is_press {
            match self.input_map.get(&slot) {
                Some(InputState::Pressed) | Some(InputState::Down) => InputState::Down,
                Some(InputState::Released) | None => InputState::Pressed,
            }
        } else {
            InputState::Released
        };
        self.input_map.insert(slot, next);
        proof {
            assert forall|s: InputType| s.slot() == symbol.slot() implies s == symbol by {
                InputType::lemma_slot_injective(s, symbol);
            }
            assert(self@ =~= raw_event_applied(old(self)@, symbol, is_press));
        }
    }

    /// Updates the input manager with one event of the loop. Events for other
    /// windows and events that carry no input leave it as it was. A key or
    /// mouse button event is applied as a raw edge, a modifier-change
    /// notification replaces the modifier set, and a cursor movement replaces
    /// the cursor position.
    pub fn handle_event(&mut self, event: &Event)
        ensures
            final(self)@ == states_after_event(old(self)@, old(self).window_id(), *event),
            final(self).modifiers() == modifiers_after_event(
                old(self).modifiers(),
                old(self).window_id(),
                *event,
            ),
            final(self).cursor_position() == cursor_after_event(
                old(self).cursor_position(),
                old(self).window_id(),
                *event,
            ),
            final(self).window_id() == old(self).window_id(),
    {
        match event {
            Event::WindowEvent { window_id, event } => {
                if *window_id == self.window_id {
                    match event {
                        WindowEvent::KeyboardInput {
                            physical_key,
                            state,
                            repeat,
                            is_synthetic,
                        } => {
                            if !*is_synthetic && !*repeat {
                                if let PhysicalKey::Code(key_code) = physical_key {
                                    let input = InputType::Key(*key_code);
                                    match state {
                                        ElementState::Pressed => self.handle_raw_event(input, true),
                                        ElementState::Released => self.handle_raw_event(
                                            input,
                                            false,
                                        ),
                                    }
                                }
                            }
                        },
                        WindowEvent::ModifiersChanged(mods) => {
                            self.key_modifiers.update(mods);
                        },
                        WindowEvent::CursorMoved { position } => {
                            self.cursor_position = *position;
                        },
                        WindowEvent::MouseInput { state, button } => {
                            let input = InputType::Mouse(*button);
                            match state {
                                ElementState::Pressed => self.handle_raw_event(input, true),
                                ElementState::Released => self.handle_raw_event(input, false),
                            }
                        },
                        _ => {},
                    }
                }
            },
            _ => {},
        }
    }

    /// Ages the tracked states by one frame. Must be called once per frame,
    /// after the frame's events and before the states are queried. `Pressed`
    /// becomes `Down`, so a press is seen as an edge for one frame only;
    /// `Down` stays `Down`; `Released` entries are removed, so a release is seen
    /// for one frame only and the next press is a fresh rising edge.
    pub fn update(&mut self)
        ensures
            final(self)@ == aged(old(self)@),
            final(self).window_id() == old(self).window_id(),
            final(self).modifiers() == old(self).modifiers(),
            final(self).cursor_position() == old(self).cursor_position(),
    {
        let mut kept: HashMap<u64, InputState> = HashMap::new();
        for slot in it: self.input_map.keys()
            invariant
                forall|k: u64| #[trigger]
                    kept@.contains_key(k) ==> self.input_map@.contains_key(k)
                        && self.input_map@[k] != InputState::Released && kept@[k]
                        == InputState::Down,
                forall|i: int|
                    0 <= i < it.index() && self.input_map@[*it.seq()[i]] != InputState::Released
                        ==> kept@.contains_key(*it.seq()[i]),
        {
            match self.input_map.get(slot) {
                Some(InputState::Pressed) | Some(InputState::Down) => {
                    kept.insert(*slot, InputState::Down);
                },
                Some(InputState::Released) | None => {},
            }
        }
        self.input_map = kept;
        proof {
            assert(self@ =~= aged(old(self)@));
        }
    }

    /// Returns the tracked state of `symbol`, if it has one.
    pub fn state(&self, symbol: InputType) -> (r: Option<InputState>)
        ensures
            r == self@.get(symbol),
    {
        match self.input_map.get(&symbol.slot()) {
            Some(state) => Some(*state),
            None => None,
        }
    }

    /// Returns true if `symbol` was pressed this frame.
    pub fn pressed(&self, symbol: InputType) -> (r: bool)
        ensures
            r == is_pressed(self@, symbol),
    {
        match self.state(symbol) {
            Some(InputState::Pressed) => true,
            _ => false,
        }
    }

    /// Returns true if `symbol` is currently down: for every frame in which it
    /// is held, including the frame it was pressed.
    pub fn down(&self, symbol: InputType) -> (r: bool)
        ensures
            r == is_down(self@, symbol),
    {
        match self.state(symbol) {
            Some(InputState::Pressed) | Some(InputState::Down) => true,
            _ => false,
        }
    }

    /// Returns true if `symbol` was released this frame.
    pub fn released(&self, symbol: InputType) -> (r: bool)
        ensures
            r == is_released(self@, symbol),
    {
        match self.state(symbol) {
            Some(InputState::Released) => true,
            _ => false,
        }
    }

    /// Returns true if the key was pressed this frame.
    pub fn key_pressed(&self, key_code: KeyCode) -> (r: bool)
        ensures
            r == is_pressed(self@, InputType::Key(key_code)),
    {
        self.pressed(InputType::Key(key_code))
    }

    /// Returns true if the key is currently down.
    /// Will return true for multiple frames if the key is held down, including the frame it was
    /// pressed.
    pub fn key_down(&self, key_code: KeyCode) -> (r: bool)
        ensures
            r == is_down(self@, InputType::Key(key_code)),
    {
        self.down(InputType::Key(key_code))
    }

    /// Returns true if the key was released this frame.
    pub fn key_released(&self, key_code: KeyCode) -> (r: bool)
        ensures
            r == is_released(self@, InputType::Key(key_code)),
    {
        self.released(InputType::Key(key_code))
    }

    /// Returns true if the mouse button was pressed this frame.
    pub fn mouse_pressed(&self, button: MouseButton) -> (r: bool)
        ensures
            r == is_pressed(self@, InputType::Mouse(button)),
    {
        self.pressed(InputType::Mouse(button))
    }

    /// Returns true if the mouse button is currently down.
    /// Will return true for multiple frames if the mouse button is held down, including the frame
    /// it was pressed.
    pub fn mouse_down(&self, button: MouseButton) -> (r: bool)
        ensures
            r == is_down(self@, InputType::Mouse(button)),
    {
        self.down(InputType::Mouse(button))
    }

    /// Returns true if the mouse button was released this frame.
    pub fn mouse_released(&self, button: MouseButton) -> (r: bool)
        ensures
            r == is_released(self@, InputType::Mouse(button)),
    {
        self.released(InputType::Mouse(button))
    }
}

} // verus!
