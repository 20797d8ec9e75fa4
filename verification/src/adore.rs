use vstd::prelude::*;

use crate::gfx::raw::ContextConfig;
use crate::types::Size;
use crate::window::{Input, Window, WindowConfig, WindowView};

verus! {

/// How the engine is to be started.
#[derive(Debug, Clone, Copy)]
pub struct AdoreConfig {
    pub window_config: WindowConfig,
}

impl Default for AdoreConfig {
    fn default() -> (config: Self)
        ensures
            config.window_config.title@ == "Adore"@,
            config.window_config.width == 1280,
            config.window_config.height == 720,
            config.window_config.resizable,
    {
        AdoreConfig { window_config: WindowConfig::default() }
    }
}

/// The engine: a window, and the size for which the game was last laid out.
#[derive(Debug)]
pub struct Adore {
    window: Window,
    old_size: Size<u32>,
}

impl Adore {
    /// The size for which the game was last laid out.
    pub closed spec fn laid_out(&self) -> Size<u32> {
        self.old_size
    }

    /// What the window holds.
    pub closed spec fn window_view(&self) -> WindowView {
        self.window@
    }

    /// An engine whose game has not been laid out for any size.
    pub fn new(config: AdoreConfig) -> (engine: Self)
        ensures
            engine.laid_out() == (Size { width: 0u32, height: 0u32 }),
            engine.window_view() == (WindowView {
                title: config.window_config.title@,
                size: Size { width: config.window_config.width, height: config.window_config.height },
                resizable: config.window_config.resizable,
                exit: false,
                input: Input::new_view(),
            }),
    {
        Adore {
            window: Window::new(
                config.window_config.title,
                config.window_config.width,
                config.window_config.height,
                config.window_config.resizable,
            ),
            old_size: Size::default(),
        }
    }

    /// Starts a frame for a window of `size`. Where the size is new, the
    /// answer is the configuration that the surface is to get before the game
    /// is laid out anew; else there is nothing to do before the frame.
    pub fn run(&mut self, size: Size<u32>) -> (configure: Option<ContextConfig>)
        ensures
            final(self).laid_out() == size,
            final(self).window_view() == old(self).window_view(),
            configure == if size != old(self).laid_out() {
                Some(ContextConfig { width: size.width, height: size.height, vsync: false })
            } else {
                None
            },
    {
        if size != self.old_size {
            self.old_size = size;
            Some(ContextConfig { width: size.width, height: size.height, vsync: false })
        } else {
            None
        }
    }

    /// The engine's window.
    pub fn window(&self) -> (window: &Window)
        ensures
            window@ == self.window_view(),
    {
        &self.window
    }

    /// The engine's window, to change it.
    pub fn window_mut(&mut self) -> (window: &mut Window)
        ensures
            window@ == old(self).window_view(),
            final(self).window_view() == final(window)@,
            final(self).laid_out() == old(self).laid_out(),
    {
        &mut self.window
    }
}

} // verus!
