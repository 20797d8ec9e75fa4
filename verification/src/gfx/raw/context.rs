use vstd::prelude::*;

use crate::gfx::raw::config::ContextConfig;

verus! {

/// How the surface presents its frames.
#[derive(Debug, Clone, Copy, PartialEq, Eq, Structural)]
pub enum PresentMode {
    AutoVsync,
    AutoNoVsync,
}

/// What the graphics context keeps of its surface: the configured size and
/// present mode, and whether a frame is acquired for drawing.
#[derive(Debug, Clone, Copy, PartialEq, Eq, Structural)]
pub struct Context {
    width: u32,
    height: u32,
    present_mode: PresentMode,
    frame: bool,
}

/// What a `Context` holds.
pub struct ContextView {
    pub width: u32,
    pub height: u32,
    pub present_mode: PresentMode,
    pub frame: bool,
}

/// What happened to the frame that `render` is about.
#[derive(Debug, Clone, Copy, PartialEq, Eq, Structural)]
pub enum RenderEvent {
    /// The surface handed out a frame.
    Acquired,
    /// The surface handed out none.
    Lost,
    /// The drawing into the acquired frame is done.
    Drawn,
}

/// What is to be done with the frame next.
#[derive(Debug, Clone, Copy, PartialEq, Eq, Structural)]
pub enum RenderAction {
    /// Draw into the acquired frame.
    Draw,
    /// Submit what was drawn, present the frame and end it.
    Present,
    /// End the frame with nothing drawn.
    Skip,
}

impl ContextView {
    /// The surface after a request to configure it: a size of no area is
    /// not taken up.
    pub open spec fn reset(self, config: ContextConfig) -> ContextView {
        if config.width > 0 && config.height > 0 {
            ContextView {
                width: config.width,
                height: config.height,
                present_mode: if config.vsync {
                    PresentMode::AutoVsync
                } else {
                    PresentMode::AutoNoVsync
                },
                frame: self.frame,
            }
        } else {
            self
        }
    }

    /// What `render` answers to an event: an acquired frame is drawn into,
    /// a drawn frame is presented if there is one, and nothing else is.
    pub open spec fn action(self, event: RenderEvent) -> RenderAction {
        match event {
            RenderEvent::Acquired => RenderAction::Draw,
            RenderEvent::Lost => RenderAction::Skip,
            RenderEvent::Drawn => if self.frame {
                RenderAction::Present
            } else {
                RenderAction::Skip
            },
        }
    }

    /// The surface after an event: it holds a frame from when one is
    /// acquired until it is drawn.
    pub open spec fn rendered(self, event: RenderEvent) -> ContextView {
        ContextView { frame: event == RenderEvent::Acquired, ..self }
    }
}

impl View for Context {
    type V = ContextView;

    closed spec fn view(&self) -> ContextView {
        ContextView { width: self.width, height: self.height, present_mode: self.present_mode, frame: self.frame }
    }
}

impl Context {
    /// A context whose surface has the given size, presents without waiting
    /// for the display, and holds no frame.
    pub fn new(size: (u32, u32)) -> (context: Self)
        ensures
            context@ == (ContextView {
                width: size.0,
                height: size.1,
                present_mode: PresentMode::AutoNoVsync,
                frame: false,
            }),
    {
        Context { width: size.0, height: size.1, present_mode: PresentMode::AutoNoVsync, frame: false }
    }

    /// Takes up a new configuration. Answers whether the surface is to be
    /// configured anew.
    pub fn reset(&mut self, config: ContextConfig) -> (configure: bool)
        ensures
            final(self)@ == old(self)@.reset(config),
            configure == (config.width > 0 && config.height > 0),
    {
        if config.width > 0 && config.height > 0 {
            self.width = config.width;
            self.height = config.height;
            self.present_mode = if config.vsync {
                PresentMode::AutoVsync
            } else {
                PresentMode::AutoNoVsync
            };
            true
        } else {
            false
        }
    }

    /// Takes note of what happened to the frame, and says what to do next.
    pub fn render(&mut self, event: RenderEvent) -> (action: RenderAction)
        ensures
            action == old(self)@.action(event),
            final(self)@ == old(self)@.rendered(event),
    {
        match event {
            RenderEvent::Acquired => {
                self.frame = true;
                RenderAction::Draw
            },
            RenderEvent::Lost => {
                self.frame = false;
                RenderAction::Skip
            },
            RenderEvent::Drawn => {
                let held = self.frame;
                self.frame = false;
                if held {
                    RenderAction::Present
                } else {
                    RenderAction::Skip
                }
            },
        }
    }

    /// The configured size of the surface.
    pub fn size(&self) -> (size: (u32, u32))
        ensures
            size == (self@.width, self@.height),
    {
        (self.width, self.height)
    }

    /// How the surface presents its frames.
    pub fn present_mode(&self) -> (mode: PresentMode)
        ensures
            mode == self@.present_mode,
    {
        self.present_mode
    }
}

/// The features that are asked of the device: those of the wanted ones
/// that the adapter has. Each bit stands for one feature.
pub fn request_features(adapter: u64, features: u64) -> (asked: u64)
    ensures
        asked == features & adapter,
{
    features & adapter
}

/// Which of the formats that the surface offers is taken, given for each
/// whether it is an sRGB format: the first sRGB format, or the first format
/// where none is sRGB.
pub open spec fn picked(srgb: Seq<bool>) -> Option<int> {
    if srgb.len() == 0 {
        None
    } else if exists|i: int| 0 <= i < srgb.len() && srgb[i] {
        Some(choose|i: int| 0 <= i < srgb.len() && srgb[i] && forall|j: int| 0 <= j < i ==> !srgb[j])
    } else {
        Some(0)
    }
}

/// Which of the formats that the surface offers is taken.
pub fn pick_format(srgb: &[bool]) -> (index: Option<usize>)
    ensures
        match index {
            Some(i) => picked(srgb@) == Some(i as int),
            None => picked(srgb@).is_none(),
        },
{
    if srgb.len() == 0 {
        return None;
    }
    let mut i: usize = 0;
    while i < srgb.len()
        invariant
            i <= srgb.len(),
            forall|j: int| 0 <= j < i ==> !srgb@[j],
        decreases srgb.len() - i,
    {
        if srgb[i] {
            return Some(i);
        }
        i += 1;
    }
    Some(0)
}

/// Takes up a new configuration of the surface. Answers whether the surface
/// is to be configured anew.
pub fn reset(context: &mut Context, config: ContextConfig) -> (configure: bool)
    ensures
        final(context)@ == old(context)@.reset(config),
        configure == (config.width > 0 && config.height > 0),
{
    context.reset(config)
}

/// Takes note of what happened to the frame, and says what to do next.
pub fn render(context: &mut Context, event: RenderEvent) -> (action: RenderAction)
    ensures
        action == old(context)@.action(event),
        final(context)@ == old(context)@.rendered(event),
{
    context.render(event)
}

/// Whether a frame is acquired for drawing.
pub fn frame(context: &Context) -> (acquired: bool)
    ensures
        acquired == context@.frame,
{
    context.frame
}

} // verus!
