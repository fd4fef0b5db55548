use perovskite::app_settings::{
    AppBuilder, AppSettings, DEFAULT_FRAME_HEIGHT, DEFAULT_FRAME_WIDTH, DEFAULT_MAX_FRAME_TIME,
    DEFAULT_TARGET_FRAME_TIME,
};
use perovskite::menu::{MenuId, MenuItemWithAction};

type Builder = AppBuilder<&'static str, &'static str, u32>;
type Settings = AppSettings<&'static str, &'static str, u32>;

#[test]
fn defaults_of_an_empty_builder() {
    let settings: Settings = Builder::new().build();
    assert_eq!(settings.window_title, "App");
    assert_eq!(settings.window_width, None);
    assert_eq!(settings.window_height, None);
    assert_eq!(settings.frame_width, 640);
    assert_eq!(settings.frame_height, 480);
    assert_eq!(settings.menu_bar, None);
    assert_eq!(settings.context_menu, None);
    assert_eq!(settings.menu_dispatch_map.get(&MenuId("any".to_string())), None);
    assert_eq!(settings.target_frame_time, 16_000_000);
    assert_eq!(settings.max_frame_time, 32_000_000);
    assert!(settings.skip_update_after_resize);
}

#[test]
fn resize_policy_is_a_setting() {
    let settings: Settings = Builder::new().with_skip_update_after_resize(false).build();
    assert!(!settings.skip_update_after_resize);
    let settings: Settings = Builder::new()
        .with_skip_update_after_resize(false)
        .with_skip_update_after_resize(true)
        .build();
    assert!(settings.skip_update_after_resize);
    assert_eq!(settings.frame_width, 640);
}

#[test]
fn default_constants() {
    assert_eq!(DEFAULT_FRAME_WIDTH, 640);
    assert_eq!(DEFAULT_FRAME_HEIGHT, 480);
    assert_eq!(DEFAULT_TARGET_FRAME_TIME, 16_000_000);
    assert_eq!(DEFAULT_MAX_FRAME_TIME, 32_000_000);
}

#[test]
fn builder_entry_points_agree() {
    let a: Settings = Settings::builder().build();
    let b: Settings = Builder::default().build();
    assert_eq!(a.window_title, b.window_title);
    assert_eq!(a.frame_width, b.frame_width);
    assert_eq!(a.frame_height, b.frame_height);
    assert_eq!(a.target_frame_time, b.target_frame_time);
    assert_eq!(a.max_frame_time, b.max_frame_time);
}

#[test]
fn every_setting_is_taken_over() {
    let settings: Settings = Builder::new()
        .with_window_title("Minimal Example".to_string())
        .with_window_size(800, 600)
        .with_frame_size(320, 240)
        .with_menu_bar("bar")
        .with_context_menu("context")
        .with_menu_actions(vec![
            MenuItemWithAction { menu_id: MenuId("open".to_string()), action: 1 },
            MenuItemWithAction { menu_id: MenuId("open".to_string()), action: 2 },
            MenuItemWithAction { menu_id: MenuId("quit".to_string()), action: 3 },
        ])
        .with_target_frame_time(8_000_000)
        .with_max_frame_time(24_000_000)
        .build();
    assert_eq!(settings.window_title, "Minimal Example");
    assert_eq!(settings.window_width, Some(800));
    assert_eq!(settings.window_height, Some(600));
    assert_eq!(settings.frame_width, 320);
    assert_eq!(settings.frame_height, 240);
    assert_eq!(settings.menu_bar, Some("bar"));
    assert_eq!(settings.context_menu, Some("context"));
    assert_eq!(settings.menu_dispatch_map.get(&MenuId("open".to_string())), Some(&2));
    assert_eq!(settings.menu_dispatch_map.get(&MenuId("quit".to_string())), Some(&3));
    assert_eq!(settings.menu_dispatch_map.get(&MenuId("save".to_string())), None);
    assert_eq!(settings.target_frame_time, 8_000_000);
    assert_eq!(settings.max_frame_time, 24_000_000);
}

#[test]
fn later_setting_replaces_earlier() {
    let settings: Settings = Builder::new()
        .with_window_title("one".to_string())
        .with_window_title("two".to_string())
        .with_frame_size(1, 2)
        .with_frame_size(3, 4)
        .with_menu_actions(vec![MenuItemWithAction { menu_id: MenuId("a".to_string()), action: 1 }])
        .with_menu_actions(vec![MenuItemWithAction { menu_id: MenuId("a".to_string()), action: 2 }])
        .build();
    assert_eq!(settings.window_title, "two");
    assert_eq!((settings.frame_width, settings.frame_height), (3, 4));
    assert_eq!(settings.menu_dispatch_map.get(&MenuId("a".to_string())), Some(&2));
}

#[test]
fn window_size_falls_back_to_frame_size() {
    let settings: Settings = Builder::new().with_frame_size(320, 240).build();
    assert_eq!(settings.window_size(), (320, 240));
    assert_eq!(settings.min_window_size(), (320, 240));

    let settings: Settings =
        Builder::new().with_frame_size(320, 240).with_window_size(960, 720).build();
    assert_eq!(settings.window_size(), (960, 720));
    assert_eq!(settings.min_window_size(), (320, 240));

    let mut settings: Settings = Builder::new().build();
    assert_eq!(settings.window_size(), (640, 480));
    settings.window_width = Some(100);
    assert_eq!(settings.window_size(), (100, 480));
    settings.window_width = None;
    settings.window_height = Some(50);
    assert_eq!(settings.window_size(), (640, 50));
}
