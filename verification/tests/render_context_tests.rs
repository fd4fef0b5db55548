use perovskite::event::{CursorPosition, KeyCode};
use perovskite::input::{InputState, InputType, KeyboardModifiers};
use perovskite::render_context::RenderContext;

#[test]
fn new_context_holds_what_it_was_given() {
    let ctx: RenderContext<String, Vec<u8>> =
        RenderContext::new("window".to_string(), 9, vec![1, 2, 3], 16_000_000, 32_000_000);
    assert_eq!(ctx.window(), "window");
    assert_eq!(ctx.target_frame_time(), 16_000_000);
    assert_eq!(ctx.max_frame_time(), 32_000_000);
    assert_eq!(ctx.delta_time(), 0);
    assert!(!ctx.should_exit());
    assert_eq!(ctx.input.window_id(), 9);
    assert!(!ctx.input.key_down(KeyCode(1)));
    assert_eq!(ctx.input.modifiers(), KeyboardModifiers::default());
    assert_eq!(ctx.input.cursor_position(), CursorPosition { x_bits: 0, y_bits: 0 });
}

#[test]
fn exit_sets_the_request_and_nothing_else() {
    let mut ctx: RenderContext<u8, u8> = RenderContext::new(1, 2, 3, 4, 5);
    ctx.exit();
    assert!(ctx.should_exit());
    assert_eq!(*ctx.window(), 1);
    assert_eq!(*ctx.pixels_mut(), 3);
    assert_eq!(ctx.target_frame_time(), 4);
    assert_eq!(ctx.max_frame_time(), 5);
    assert_eq!(ctx.delta_time(), 0);
    assert_eq!(ctx.input.window_id(), 2);
    ctx.exit();
    assert!(ctx.should_exit());
}

#[test]
fn mutable_handles_reach_the_window_and_the_surface() {
    let mut ctx: RenderContext<String, Vec<u8>> =
        RenderContext::new("w".to_string(), 0, vec![0, 0], 1, 2);
    ctx.window_mut().push('!');
    ctx.pixels_mut()[1] = 255;
    ctx.pixels_mut().push(7);
    assert_eq!(ctx.window(), "w!");
    assert_eq!(*ctx.pixels_mut(), vec![0, 255, 7]);
    assert_eq!(ctx.target_frame_time(), 1);
    assert_eq!(ctx.max_frame_time(), 2);
    assert!(!ctx.should_exit());
}

#[test]
fn input_getter_reads_the_tracker() {
    let mut ctx: RenderContext<u8, u8> = RenderContext::new(1, 7, 3, 4, 5);
    assert_eq!(ctx.input().window_id(), 7);
    assert!(!ctx.input().key_down(KeyCode(2)));
    ctx.input.handle_raw_event(InputType::Key(KeyCode(2)), true);
    assert!(ctx.input().key_pressed(KeyCode(2)));
    assert_eq!(ctx.input().state(InputType::Key(KeyCode(2))), Some(InputState::Pressed));
    ctx.exit();
    assert!(ctx.input().key_down(KeyCode(2)));
}
