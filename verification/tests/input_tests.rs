use perovskite::event::{
    CursorPosition, ElementState, Event, KeyCode, Modifiers, ModifiersKeyState, MouseButton,
    PhysicalKey, WindowEvent,
};
use perovskite::input::{InputManager, InputState, InputType, KeyboardModifiers, MOUSE_SLOT_BASE};

const WINDOW: u64 = 1;

fn key_event(code: u32, state: ElementState, repeat: bool, is_synthetic: bool) -> Event {
    Event::WindowEvent {
        window_id: WINDOW,
        event: WindowEvent::KeyboardInput {
            physical_key: PhysicalKey::Code(KeyCode(code)),
            state,
            repeat,
            is_synthetic,
        },
    }
}

fn mouse_event(button: MouseButton, state: ElementState) -> Event {
    Event::WindowEvent { window_id: WINDOW, event: WindowEvent::MouseInput { state, button } }
}

fn no_modifiers() -> Modifiers {
    Modifiers {
        lshift_state: ModifiersKeyState::Unknown,
        rshift_state: ModifiersKeyState::Unknown,
        lalt_state: ModifiersKeyState::Unknown,
        ralt_state: ModifiersKeyState::Unknown,
        lcontrol_state: ModifiersKeyState::Unknown,
        rcontrol_state: ModifiersKeyState::Unknown,
        lsuper_state: ModifiersKeyState::Unknown,
        rsuper_state: ModifiersKeyState::Unknown,
    }
}

#[test]
fn unseen_symbols_are_neutral() {
    let input = InputManager::new(WINDOW);
    assert!(!input.key_pressed(KeyCode(30)));
    assert!(!input.key_down(KeyCode(30)));
    assert!(!input.key_released(KeyCode(30)));
    assert!(!input.mouse_pressed(MouseButton::Left));
    assert!(!input.mouse_down(MouseButton::Other(7)));
    assert!(!input.mouse_released(MouseButton::Right));
    assert_eq!(input.state(InputType::Key(KeyCode(30))), None);
}

#[test]
fn symbol_stays_neutral_while_others_change() {
    let mut input = InputManager::new(WINDOW);
    input.handle_event(&key_event(1, ElementState::Pressed, false, false));
    input.handle_event(&mouse_event(MouseButton::Left, ElementState::Released));
    input.update();
    assert!(!input.key_pressed(KeyCode(2)));
    assert!(!input.key_down(KeyCode(2)));
    assert!(!input.key_released(KeyCode(2)));
    assert_eq!(input.state(InputType::Key(KeyCode(2))), None);
}

#[test]
fn press_is_visible_in_the_same_frame() {
    let mut input = InputManager::new(WINDOW);
    input.handle_event(&key_event(30, ElementState::Pressed, false, false));
    assert!(input.key_pressed(KeyCode(30)));
    assert!(input.key_down(KeyCode(30)));
    assert!(!input.key_released(KeyCode(30)));
    assert_eq!(input.state(InputType::Key(KeyCode(30))), Some(InputState::Pressed));
}

#[test]
fn press_then_age_is_held() {
    let mut input = InputManager::new(WINDOW);
    input.handle_event(&key_event(30, ElementState::Pressed, false, false));
    input.update();
    assert!(!input.key_pressed(KeyCode(30)));
    assert!(input.key_down(KeyCode(30)));
    assert!(!input.key_released(KeyCode(30)));
    assert_eq!(input.state(InputType::Key(KeyCode(30))), Some(InputState::Down));
    input.update();
    assert_eq!(input.state(InputType::Key(KeyCode(30))), Some(InputState::Down));
}

#[test]
fn press_and_release_in_one_frame() {
    let mut input = InputManager::new(WINDOW);
    input.handle_event(&key_event(30, ElementState::Pressed, false, false));
    input.handle_event(&key_event(30, ElementState::Released, false, false));
    assert_eq!(input.state(InputType::Key(KeyCode(30))), Some(InputState::Released));
    assert!(input.key_released(KeyCode(30)));
    assert!(!input.key_pressed(KeyCode(30)));
    assert!(!input.key_down(KeyCode(30)));
    input.update();
    assert_eq!(input.state(InputType::Key(KeyCode(30))), None);
    assert!(!input.key_released(KeyCode(30)));
    assert!(!input.key_pressed(KeyCode(30)));
    assert!(!input.key_down(KeyCode(30)));
}

#[test]
fn repeated_press_while_down_stays_down() {
    let mut input = InputManager::new(WINDOW);
    input.handle_raw_event(InputType::Key(KeyCode(30)), true);
    input.update();
    assert_eq!(input.state(InputType::Key(KeyCode(30))), Some(InputState::Down));
    input.handle_raw_event(InputType::Key(KeyCode(30)), true);
    assert_eq!(input.state(InputType::Key(KeyCode(30))), Some(InputState::Down));
    assert!(!input.key_pressed(KeyCode(30)));
    assert!(input.key_down(KeyCode(30)));
    input.handle_raw_event(InputType::Key(KeyCode(30)), true);
    assert_eq!(input.state(InputType::Key(KeyCode(30))), Some(InputState::Down));
}

#[test]
fn second_press_in_the_same_frame_is_a_hold() {
    let mut input = InputManager::new(WINDOW);
    input.handle_raw_event(InputType::Mouse(MouseButton::Left), true);
    assert_eq!(input.state(InputType::Mouse(MouseButton::Left)), Some(InputState::Pressed));
    input.handle_raw_event(InputType::Mouse(MouseButton::Left), true);
    assert_eq!(input.state(InputType::Mouse(MouseButton::Left)), Some(InputState::Down));
    assert!(!input.mouse_pressed(MouseButton::Left));
    assert!(input.mouse_down(MouseButton::Left));
}

#[test]
fn press_after_release_is_a_fresh_edge() {
    let mut input = InputManager::new(WINDOW);
    input.handle_raw_event(InputType::Key(KeyCode(5)), true);
    input.update();
    input.handle_raw_event(InputType::Key(KeyCode(5)), false);
    assert!(input.key_released(KeyCode(5)));
    input.handle_raw_event(InputType::Key(KeyCode(5)), true);
    assert_eq!(input.state(InputType::Key(KeyCode(5))), Some(InputState::Pressed));
    input.handle_raw_event(InputType::Key(KeyCode(5)), false);
    input.update();
    input.handle_raw_event(InputType::Key(KeyCode(5)), true);
    assert!(input.key_pressed(KeyCode(5)));
}

#[test]
fn release_of_an_unseen_symbol_is_tracked_for_one_frame() {
    let mut input = InputManager::new(WINDOW);
    input.handle_event(&mouse_event(MouseButton::Middle, ElementState::Released));
    assert!(input.mouse_released(MouseButton::Middle));
    assert!(!input.mouse_down(MouseButton::Middle));
    input.update();
    assert!(!input.mouse_released(MouseButton::Middle));
    assert_eq!(input.state(InputType::Mouse(MouseButton::Middle)), None);
}

#[test]
fn aging_keeps_held_and_drops_released() {
    let mut input = InputManager::new(WINDOW);
    input.handle_raw_event(InputType::Key(KeyCode(1)), true);
    input.handle_raw_event(InputType::Key(KeyCode(2)), false);
    input.handle_raw_event(InputType::Mouse(MouseButton::Back), true);
    input.handle_raw_event(InputType::Mouse(MouseButton::Back), true);
    input.update();
    assert_eq!(input.state(InputType::Key(KeyCode(1))), Some(InputState::Down));
    assert_eq!(input.state(InputType::Key(KeyCode(2))), None);
    assert_eq!(input.state(InputType::Mouse(MouseButton::Back)), Some(InputState::Down));
}

#[test]
fn repeat_and_synthetic_key_events_are_ignored() {
    let mut input = InputManager::new(WINDOW);
    input.handle_event(&key_event(30, ElementState::Pressed, true, false));
    assert_eq!(input.state(InputType::Key(KeyCode(30))), None);
    input.handle_event(&key_event(30, ElementState::Pressed, false, true));
    assert_eq!(input.state(InputType::Key(KeyCode(30))), None);
    input.handle_event(&key_event(30, ElementState::Released, true, true));
    assert_eq!(input.state(InputType::Key(KeyCode(30))), None);
}

#[test]
fn unidentified_key_is_ignored() {
    let mut input = InputManager::new(WINDOW);
    input.handle_event(&Event::WindowEvent {
        window_id: WINDOW,
        event: WindowEvent::KeyboardInput {
            physical_key: PhysicalKey::Unidentified,
            state: ElementState::Pressed,
            repeat: false,
            is_synthetic: false,
        },
    });
    assert_eq!(input.state(InputType::Key(KeyCode(0))), None);
    assert!(!input.key_down(KeyCode(0)));
}

#[test]
fn events_of_other_windows_are_ignored() {
    let mut input = InputManager::new(WINDOW);
    input.handle_event(&Event::WindowEvent {
        window_id: WINDOW + 1,
        event: WindowEvent::MouseInput { state: ElementState::Pressed, button: MouseButton::Left },
    });
    assert!(!input.mouse_pressed(MouseButton::Left));
    let mut mods = no_modifiers();
    mods.lshift_state = ModifiersKeyState::Pressed;
    input.handle_event(&Event::WindowEvent {
        window_id: WINDOW + 1,
        event: WindowEvent::ModifiersChanged(mods),
    });
    assert_eq!(input.modifiers(), KeyboardModifiers::default());
    input.handle_event(&Event::WindowEvent {
        window_id: WINDOW + 1,
        event: WindowEvent::CursorMoved { position: CursorPosition { x_bits: 3, y_bits: 4 } },
    });
    assert_eq!(input.cursor_position(), CursorPosition { x_bits: 0, y_bits: 0 });
    assert_eq!(input.window_id(), WINDOW);
}

#[test]
fn events_without_input_change_nothing() {
    let mut input = InputManager::new(WINDOW);
    input.handle_raw_event(InputType::Key(KeyCode(9)), true);
    for event in [
        Event::AboutToWait,
        Event::Other,
        Event::WindowEvent { window_id: WINDOW, event: WindowEvent::CloseRequested },
        Event::WindowEvent { window_id: WINDOW, event: WindowEvent::RedrawRequested },
        Event::WindowEvent { window_id: WINDOW, event: WindowEvent::Resized { width: 2, height: 3 } },
        Event::WindowEvent { window_id: WINDOW, event: WindowEvent::Other },
    ] {
        input.handle_event(&event);
    }
    assert_eq!(input.state(InputType::Key(KeyCode(9))), Some(InputState::Pressed));
    assert_eq!(input.modifiers(), KeyboardModifiers::default());
    assert_eq!(input.cursor_position(), CursorPosition { x_bits: 0, y_bits: 0 });
}

#[test]
fn mouse_buttons_are_tracked_apart() {
    let mut input = InputManager::new(WINDOW);
    input.handle_event(&mouse_event(MouseButton::Right, ElementState::Pressed));
    input.handle_event(&mouse_event(MouseButton::Other(0), ElementState::Released));
    assert!(input.mouse_pressed(MouseButton::Right));
    assert!(input.mouse_down(MouseButton::Right));
    assert!(!input.mouse_released(MouseButton::Right));
    assert!(input.mouse_released(MouseButton::Other(0)));
    assert!(!input.mouse_pressed(MouseButton::Left));
    assert!(!input.mouse_pressed(MouseButton::Middle));
    assert!(!input.mouse_pressed(MouseButton::Back));
    assert!(!input.mouse_pressed(MouseButton::Forward));
    assert!(!input.mouse_pressed(MouseButton::Other(1)));
    assert!(!input.key_pressed(KeyCode(1)));
}

#[test]
fn keys_and_buttons_do_not_collide() {
    let mut input = InputManager::new(WINDOW);
    input.handle_raw_event(InputType::Key(KeyCode(u32::MAX)), true);
    assert!(!input.mouse_down(MouseButton::Left));
    input.handle_raw_event(InputType::Mouse(MouseButton::Other(u16::MAX)), true);
    assert!(input.key_pressed(KeyCode(u32::MAX)));
    assert!(input.mouse_pressed(MouseButton::Other(u16::MAX)));
    assert!(!input.key_down(KeyCode(0)));
}

#[test]
fn slots_are_as_documented() {
    assert_eq!(MOUSE_SLOT_BASE, 4_294_967_296);
    assert_eq!(InputType::Key(KeyCode(0)).slot(), 0);
    assert_eq!(InputType::Key(KeyCode(30)).slot(), 30);
    assert_eq!(InputType::Key(KeyCode(u32::MAX)).slot(), 4_294_967_295);
    assert_eq!(InputType::Mouse(MouseButton::Left).slot(), 4_294_967_296);
    assert_eq!(InputType::Mouse(MouseButton::Right).slot(), 4_294_967_297);
    assert_eq!(InputType::Mouse(MouseButton::Middle).slot(), 4_294_967_298);
    assert_eq!(InputType::Mouse(MouseButton::Back).slot(), 4_294_967_299);
    assert_eq!(InputType::Mouse(MouseButton::Forward).slot(), 4_294_967_300);
    assert_eq!(InputType::Mouse(MouseButton::Other(0)).slot(), 4_294_967_301);
    assert_eq!(InputType::Mouse(MouseButton::Other(u16::MAX)).slot(), 4_295_032_836);
}

#[test]
fn modifiers_are_recomputed_wholesale() {
    let mut input = InputManager::new(WINDOW);
    let mut mods = no_modifiers();
    mods.lshift_state = ModifiersKeyState::Pressed;
    mods.rcontrol_state = ModifiersKeyState::Pressed;
    input.handle_event(&Event::WindowEvent {
        window_id: WINDOW,
        event: WindowEvent::ModifiersChanged(mods),
    });
    let seen = input.modifiers();
    assert!(seen.left_shift);
    assert!(seen.right_control);
    assert!(!seen.right_shift);
    assert!(!seen.left_alt);
    assert!(!seen.right_alt);
    assert!(!seen.left_control);
    assert!(!seen.left_super);
    assert!(!seen.right_super);

    let mut mods = no_modifiers();
    mods.ralt_state = ModifiersKeyState::Pressed;
    input.handle_event(&Event::WindowEvent {
        window_id: WINDOW,
        event: WindowEvent::ModifiersChanged(mods),
    });
    let seen = input.modifiers();
    assert!(seen.right_alt);
    assert!(!seen.left_shift);
    assert!(!seen.right_control);
}

#[test]
fn keyboard_modifiers_update_reads_each_key() {
    let all = Modifiers {
        lshift_state: ModifiersKeyState::Pressed,
        rshift_state: ModifiersKeyState::Pressed,
        lalt_state: ModifiersKeyState::Pressed,
        ralt_state: ModifiersKeyState::Pressed,
        lcontrol_state: ModifiersKeyState::Pressed,
        rcontrol_state: ModifiersKeyState::Pressed,
        lsuper_state: ModifiersKeyState::Pressed,
        rsuper_state: ModifiersKeyState::Pressed,
    };
    let mut modifiers = KeyboardModifiers::default();
    modifiers.update(&all);
    assert_eq!(
        modifiers,
        KeyboardModifiers {
            left_shift: true,
            right_shift: true,
            left_alt: true,
            right_alt: true,
            left_control: true,
            right_control: true,
            left_super: true,
            right_super: true,
        }
    );
    let mut one = no_modifiers();
    one.lsuper_state = ModifiersKeyState::Pressed;
    modifiers.update(&one);
    assert_eq!(
        modifiers,
        KeyboardModifiers {
            left_shift: false,
            right_shift: false,
            left_alt: false,
            right_alt: false,
            left_control: false,
            right_control: false,
            left_super: true,
            right_super: false,
        }
    );
    modifiers.update(&no_modifiers());
    assert_eq!(modifiers, KeyboardModifiers::default());
}

#[test]
fn cursor_position_follows_the_last_movement() {
    let mut input = InputManager::new(WINDOW);
    assert_eq!(input.cursor_position(), CursorPosition { x_bits: 0, y_bits: 0 });
    let x = 12.5f64.to_bits();
    let y = 480.25f64.to_bits();
    input.handle_event(&Event::WindowEvent {
        window_id: WINDOW,
        event: WindowEvent::CursorMoved { position: CursorPosition { x_bits: x, y_bits: y } },
    });
    assert_eq!(f64::from_bits(input.cursor_position().x_bits), 12.5);
    assert_eq!(f64::from_bits(input.cursor_position().y_bits), 480.25);
    input.update();
    assert_eq!(input.cursor_position(), CursorPosition { x_bits: x, y_bits: y });
}

#[test]
fn aging_keeps_modifiers_and_window() {
    let mut input = InputManager::new(42);
    let mut mods = no_modifiers();
    mods.rsuper_state = ModifiersKeyState::Pressed;
    input.handle_event(&Event::WindowEvent {
        window_id: 42,
        event: WindowEvent::ModifiersChanged(mods),
    });
    input.update();
    assert!(input.modifiers().right_super);
    assert_eq!(input.window_id(), 42);
}

#[test]
fn input_state_from_element_state() {
    assert_eq!(InputState::from(ElementState::Pressed), InputState::Pressed);
    assert_eq!(InputState::from(ElementState::Released), InputState::Released);
}

#[test]
fn generic_queries_agree_with_the_named_ones() {
    let mut input = InputManager::new(WINDOW);
    input.handle_event(&key_event(3, ElementState::Pressed, false, false));
    input.handle_event(&mouse_event(MouseButton::Forward, ElementState::Released));
    assert_eq!(input.pressed(InputType::Key(KeyCode(3))), input.key_pressed(KeyCode(3)));
    assert_eq!(input.down(InputType::Key(KeyCode(3))), input.key_down(KeyCode(3)));
    assert_eq!(input.released(InputType::Key(KeyCode(3))), input.key_released(KeyCode(3)));
    assert!(input.released(InputType::Mouse(MouseButton::Forward)));
    assert!(!input.down(InputType::Mouse(MouseButton::Forward)));
    assert!(!input.pressed(InputType::Mouse(MouseButton::Forward)));
}
