//! The settings of an app and the builder that collects them.

use crate::menu::{all_registered, MenuDispatchMap, MenuItemWithAction};
use vstd::prelude::*;

verus! {

/// The frame width used when none is set.
pub const DEFAULT_FRAME_WIDTH: u32 = 640;

/// The frame height used when none is set.
pub const DEFAULT_FRAME_HEIGHT: u32 = 480;

/// The target frame time used when none is set: 16 ms, in nanoseconds.
pub const DEFAULT_TARGET_FRAME_TIME: u64 = 16_000_000;

/// The maximum frame time used when none is set: 32 ms, in nanoseconds.
pub const DEFAULT_MAX_FRAME_TIME: u64 = 32_000_000;

/// The window title used when none is set.
pub open spec fn default_window_title() -> Seq<char> {
    seq!['A', 'p', 'p']
}

/// What a set of settings says, as plain values: the title as its characters
/// and the dispatch map as the action of each identifier.
#[verifier::ext_equal]
pub struct SettingsView<M, C, A> {
    pub window_title: Seq<char>,
    pub window_width: Option<u32>,
    pub window_height: Option<u32>,
    pub frame_width: u32,
    pub frame_height: u32,
    pub menu_bar: Option<M>,
    pub context_menu: Option<C>,
    pub menu_actions: Map<Seq<char>, A>,
    pub target_frame_time: u64,
    pub max_frame_time: u64,
    pub skip_update_after_resize: bool,
}

impl<M, C, A> SettingsView<M, C, A> {
    /// The settings of a builder on which nothing was set.
    pub open spec fn defaults() -> Self {
        SettingsView {
            window_title: default_window_title(),
            window_width: None,
            window_height: None,
            frame_width: DEFAULT_FRAME_WIDTH,
            frame_height: DEFAULT_FRAME_HEIGHT,
            menu_bar: None,
            context_menu: None,
            menu_actions: Map::empty(),
            target_frame_time: DEFAULT_TARGET_FRAME_TIME,
            max_frame_time: DEFAULT_MAX_FRAME_TIME,
            skip_update_after_resize: true,
        }
    }
}

/// Defines the settings for an App. `M` is the type of a menu bar, `C` that of
/// a context menu, and `A` that of a menu action. All times are in nanoseconds.
pub struct AppSettings<M, C, A> {
    /// The title of the window.
    pub window_title: String,
    /// The width of the window.
    /// If not set, the frame width will be used.
    pub window_width: Option<u32>,
    /// The height of the window.
    /// If not set, the frame height will be used.
    pub window_height: Option<u32>,
    /// The width of the frame drawn by the app. It will be scaled up cleanly to the window size, while maintaining
    /// aspect ratio.
    pub frame_width: u32,
    /// The height of the frame drawn by the app. It will be scaled up cleanly to the window size, while maintaining
    /// aspect ratio.
    pub frame_height: u32,
    /// If set, this menu will be used as the menu bar for the app.
    pub menu_bar: Option<M>,
    /// If set, this menu will be used as the context menu for the app and appear on right click.
    pub context_menu: Option<C>,
    /// A dispatch map for menu items.
    /// Links menu item IDs to the actions that will be called when the menu item is activated.
    pub menu_dispatch_map: MenuDispatchMap<A>,
    /// The target frame time for the app.
    /// The apps `update` function will be called once per target frame time, but may be called multiple times
    /// before the `draw` function is called.
    pub target_frame_time: u64,
    /// The maximum frame time for the app.
    /// The maximum amount of time that can be taken by the `update` function before the `draw` function is called.
    /// Ideally this should be set to a multiple of the target frame time.
    pub max_frame_time: u64,
    /// Whether the frame that follows a resize of the window is drawn without
    /// updating first: the redraw that a resize brings with it comes at once,
    /// and shows the new geometry as it is.
    pub skip_update_after_resize: bool,
}

impl<M, C, A> View for AppSettings<M, C, A> {
    type V = SettingsView<M, C, A>;

    open spec fn view(&self) -> SettingsView<M, C, A> {
        SettingsView {
            window_title: self.window_title@,
            window_width: self.window_width,
            window_height: self.window_height,
            frame_width: self.frame_width,
            frame_height: self.frame_height,
            menu_bar: self.menu_bar,
            context_menu: self.context_menu,
            menu_actions: self.menu_dispatch_map@,
            target_frame_time: self.target_frame_time,
            max_frame_time: self.max_frame_time,
            skip_update_after_resize: self.skip_update_after_resize,
        }
    }
}

impl<M, C, A> AppSettings<M, C, A> {
    /// A builder on which nothing is set yet.
    pub fn builder() -> (r: AppBuilder<M, C, A>)
        ensures
            r@ == SettingsView::<M, C, A>::defaults(),
    {
        AppBuilder::new()
    }

    /// The size, in logical pixels, with which the window is created: the
    /// window size where it is set, the frame size where it is not, each
    /// dimension by itself.
    pub fn window_size(&self) -> (r: (u32, u32))
        ensures
            r.0 == match self.window_width {
                Some(width) => width,
                None => self.frame_width,
            },
            r.1 == match self.window_height {
                Some(height) => height,
                None => self.frame_height,
            },
    {
        let width: u32 = match self.window_width {
            Some(width) => width,
            None => self.frame_width,
        };
        let height: u32 = match self.window_height {
            Some(height) => height,
            None => self.frame_height,
        };
        (width, height)
    }

    /// The smallest size, in logical pixels, that the window may take: the
    /// frame size.
    pub fn min_window_size(&self) -> (r: (u32, u32))
        ensures
            r == (self.frame_width, self.frame_height),
    {
        (self.frame_width, self.frame_height)
    }
}

/// A builder for creating an App.
/// This struct is used to configure an App before creating it.
/// The `build` method will create the settings of the App.
pub struct AppBuilder<M, C, A> {
    window_title: Option<String>,
    window_width: Option<u32>,
    window_height: Option<u32>,
    frame_width: Option<u32>,
    frame_height: Option<u32>,
    menu_bar: Option<M>,
    context_menu: Option<C>,
    menu_dispatch_map: MenuDispatchMap<A>,
    target_frame_time: Option<u64>,
    max_frame_time: Option<u64>,
    skip_update_after_resize: Option<bool>,
}

impl<M, C, A> View for AppBuilder<M, C, A> {
    type V = SettingsView<M, C, A>;

    /// The settings that `build` would give: what was set, and the default
    /// for everything else.
    closed spec fn view(&self) -> SettingsView<M, C, A> {
        SettingsView {
            window_title: match self.window_title {
                Some(title) => title@,
                None => default_window_title(),
            },
            window_width: self.window_width,
            window_height: self.window_height,
            frame_width: match self.frame_width {
                Some(width) => width,
                None => DEFAULT_FRAME_WIDTH,
            },
            frame_height: match self.frame_height {
                Some(height) => height,
                None => DEFAULT_FRAME_HEIGHT,
            },
            menu_bar: self.menu_bar,
            context_menu: self.context_menu,
            menu_actions: self.menu_dispatch_map@,
            target_frame_time: match self.target_frame_time {
                Some(time) => time,
                None => DEFAULT_TARGET_FRAME_TIME,
            },
            max_frame_time: match self.max_frame_time {
                Some(time) => time,
                None => DEFAULT_MAX_FRAME_TIME,
            },
            skip_update_after_resize: match self.skip_update_after_resize {
                Some(skip) => skip,
                None => true,
            },
        }
    }
}

impl<M, C, A> AppBuilder<M, C, A> {
    /// A builder on which nothing is set yet.
    pub fn new() -> (r: Self)
        ensures
            r@ == SettingsView::<M, C, A>::defaults(),
    {
        Self {
            window_title: None,
            window_width: None,
            window_height: None,
            frame_width: None,
            frame_height: None,
            menu_bar: None,
            context_menu: None,
            menu_dispatch_map: MenuDispatchMap::new(),
            target_frame_time: None,
            max_frame_time: None,
            skip_update_after_resize: None,
        }
    }

    /// Sets the title of the window.
    pub fn with_window_title(self, window_title: String) -> (r: Self)
        ensures
            r@ == (SettingsView { window_title: window_title@, ..self@ }),
    {
        let mut builder = self;
        builder.window_title = Some(window_title);
        builder
    }

    /// Sets the size of the window.
    pub fn with_window_size(self, width: u32, height: u32) -> (r: Self)
        ensures
            r@ == (SettingsView {
                window_width: Some(width),
                window_height: Some(height),
                ..self@
            }),
    {
        let mut builder = self;
        builder.window_width = Some(width);
        builder.window_height = Some(height);
        builder
    }

    /// Sets the size of the frame that the app draws.
    pub fn with_frame_size(self, width: u32, height: u32) -> (r: Self)
        ensures
            r@ == (SettingsView { frame_width: width, frame_height: height, ..self@ }),
    {
        let mut builder = self;
        builder.frame_width = Some(width);
        builder.frame_height = Some(height);
        builder
    }

    /// Sets the menu bar.
    pub fn with_menu_bar(self, menu_bar: M) -> (r: Self)
        ensures
            r@ == (SettingsView { menu_bar: Some(menu_bar), ..self@ }),
    {
        let mut builder = self;
        builder.menu_bar = Some(menu_bar);
        builder
    }

    /// Sets the context menu.
    pub fn with_context_menu(self, context_menu: C) -> (r: Self)
        ensures
            r@ == (SettingsView { context_menu: Some(context_menu), ..self@ }),
    {
        let mut builder = self;
        builder.context_menu = Some(context_menu);
        builder
    }

    /// Registers the action of each item, in order, on top of what is
    /// registered already. Where two items share an identifier the later one
    /// wins.
    pub fn with_menu_actions(self, menu_actions: Vec<MenuItemWithAction<A>>) -> (r: Self)
        ensures
            r@ == (SettingsView {
                menu_actions: all_registered(self@.menu_actions, menu_actions@),
                ..self@
            }),
    {
        let mut builder = self;
        builder.menu_dispatch_map.register_all(menu_actions);
        builder
    }

    /// Sets the target frame time, in nanoseconds.
    pub fn with_target_frame_time(self, target_frame_time: u64) -> (r: Self)
        ensures
            r@ == (SettingsView { target_frame_time, ..self@ }),
    {
        let mut builder = self;
        builder.target_frame_time = Some(target_frame_time);
        builder
    }

    /// Sets the maximum frame time, in nanoseconds.
    pub fn with_max_frame_time(self, max_frame_time: u64) -> (r: Self)
        ensures
            r@ == (SettingsView { max_frame_time, ..self@ }),
    {
        let mut builder = self;
        builder.max_frame_time = Some(max_frame_time);
        builder
    }

    /// Sets whether the frame that follows a resize of the window is drawn
    /// without updating first. Unless set otherwise, it is.
    pub fn with_skip_update_after_resize(self, skip_update_after_resize: bool) -> (r: Self)
        ensures
            r@ == (SettingsView { skip_update_after_resize, ..self@ }),
    {
        let mut builder = self;
        builder.skip_update_after_resize = Some(skip_update_after_resize);
        builder
    }

    /// The settings: what was set on this builder, and the default for
    /// everything else.
    pub fn build(self) -> (r: AppSettings<M, C, A>)
        ensures
            r@ == self@,
    {
        proof {
            reveal_strlit("App");
        }
        let window_title = match self.window_title {
            Some(title) => title,
            None => "App".to_string(),
        };
        proof {
            assert(window_title@ =~= self@.window_title);
        }
        AppSettings {
            window_title,
            window_width: self.window_width,
            window_height: self.window_height,
            frame_width: match self.frame_width {
                Some(width) => width,
                None => DEFAULT_FRAME_WIDTH,
            },
            frame_height: match self.frame_height {
                Some(height) => height,
                None => DEFAULT_FRAME_HEIGHT,
            },
            menu_bar: self.menu_bar,
            context_menu: self.context_menu,
            menu_dispatch_map: self.menu_dispatch_map,
            target_frame_time: match self.target_frame_time {
                Some(time) => time,
                None => DEFAULT_TARGET_FRAME_TIME,
            },
            max_frame_time: match self.max_frame_time {
                Some(time) => time,
                None => DEFAULT_MAX_FRAME_TIME,
            },
            skip_update_after_resize: match self.skip_update_after_resize {
                Some(skip) => skip,
                None => true,
            },
        }
    }
}

impl<M, C, A> Default for AppBuilder<M, C, A> {
    /// A builder on which nothing is set yet.
    fn default() -> (r: Self)
        ensures
            r@ == SettingsView::<M, C, A>::defaults(),
    {
        Self::new()
    }
}

} // verus!
