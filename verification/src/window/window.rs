use vstd::prelude::*;

use crate::types::{Position, Size};
use crate::window::input::{Input, InputView};

verus! {

/// How a window is to be opened.
#[derive(Debug, Clone, Copy)]
pub struct WindowConfig {
    pub title: &'static str,
    pub width: u32,
    pub height: u32,
    pub resizable: bool,
}

impl Default for WindowConfig {
    fn default() -> (config: Self)
        ensures
            config.title@ == "Adore"@,
            config.width == 1280,
            config.height == 720,
            config.resizable,
    {
        WindowConfig { title: "Adore", width: 1280, height: 720, resizable: true }
    }
}

/// What the windowing system reports to the window.
#[derive(Debug, Clone, Copy, PartialEq, Eq, Structural)]
pub enum Event {
    /// The user asked to close the window.
    CloseRequested,
    /// The window has a new size.
    Resized(Size<u32>),
    /// A key went down (`pressed`) or up; `key` is its code, if the keyboard
    /// could name it.
    KeyboardInput { key: Option<u32>, pressed: bool },
    /// The pointer is at a new place in the window.
    CursorMoved,
    /// A mouse button went down (`pressed`) or up.
    MouseInput { button: u32, pressed: bool },
    /// The window is to be drawn.
    RedrawRequested,
    /// The mouse was moved.
    MouseMotion,
    /// The wheel was turned.
    MouseWheel,
    /// All pending events have been handled.
    AboutToWait,
    /// Anything else.
    Other,
}

/// What the event loop is to do after an event.
#[derive(Debug, Clone, Copy, PartialEq, Eq, Structural)]
pub enum Action {
    /// Nothing.
    Proceed,
    /// Leave the event loop.
    Exit,
    /// Run one frame for a window of this size, end the frame's input with
    /// `Input::reset`, and leave the event loop after it if `exit` is set.
    Frame { exit: bool, size: Size<u32> },
    /// Ask the windowing system for a redraw.
    RequestRedraw,
}

/// What the window keeps between events.
#[derive(Debug)]
pub struct Window {
    title: String,
    size: Size<u32>,
    resizable: bool,
    exit: bool,
    input: Input,
}

/// What a `Window` holds.
pub struct WindowView {
    pub title: Seq<char>,
    pub size: Size<u32>,
    pub resizable: bool,
    pub exit: bool,
    pub input: InputView,
}

impl WindowView {
    /// What the event loop is to do after `event`.
    pub open spec fn action(self, event: Event) -> Action {
        match event {
            Event::CloseRequested => Action::Exit,
            Event::RedrawRequested => Action::Frame { exit: self.exit, size: self.size },
            Event::AboutToWait => Action::RequestRedraw,
            _ => Action::Proceed,
        }
    }

    /// The window after `event`.
    pub open spec fn handled(self, event: Event) -> WindowView {
        match event {
            Event::Resized(size) => WindowView { size, ..self },
            Event::KeyboardInput { key, pressed } => WindowView { input: self.input.key(key, pressed), ..self },
            Event::CursorMoved => WindowView {
                input: InputView { mouse_position_changed: true, ..self.input },
                ..self
            },
            Event::MouseInput { button, pressed } => WindowView { input: self.input.button(button, pressed), ..self },
            Event::MouseMotion => WindowView {
                input: InputView { mouse_motion_changed: true, ..self.input },
                ..self
            },
            Event::MouseWheel => WindowView { input: InputView { mouse_scroll_changed: true, ..self.input }, ..self },
            _ => self,
        }
    }
}

impl View for Window {
    type V = WindowView;

    closed spec fn view(&self) -> WindowView {
        WindowView {
            title: self.title@,
            size: self.size,
            resizable: self.resizable,
            exit: self.exit,
            input: self.input@,
        }
    }
}

impl Window {
    /// A window that has heard of no input and is not asked to close.
    pub fn new(title: &str, width: u32, height: u32, resizable: bool) -> (window: Self)
        ensures
            window@.title == title@,
            window@.size == (Size { width, height }),
            window@.resizable == resizable,
            !window@.exit,
            window@.input == Input::new_view(),
    {
        Window { title: title.to_owned(), size: Size { width, height }, resizable, exit: false, input: Input::new() }
    }

    /// Takes note of an event, and says what the event loop is to do.
    pub fn run(&mut self, event: Event) -> (action: Action)
        ensures
            action == old(self)@.action(event),
            final(self)@ == old(self)@.handled(event),
    {
        match event {
            Event::CloseRequested => Action::Exit,
            Event::Resized(size) => {
                self.size = size;
                Action::Proceed
            },
            Event::KeyboardInput { key, pressed } => {
                self.input.process_key(key, pressed);
                Action::Proceed
            },
            Event::CursorMoved => {
                self.input.set_mouse_position();
                Action::Proceed
            },
            Event::MouseInput { button, pressed } => {
                self.input.process_mouse_button(button, pressed);
                Action::Proceed
            },
            Event::RedrawRequested => Action::Frame { exit: self.exit, size: self.size },
            Event::MouseMotion => {
                self.input.process_mouse_motion();
                Action::Proceed
            },
            Event::MouseWheel => {
                self.input.process_mouse_wheel();
                Action::Proceed
            },
            Event::AboutToWait => Action::RequestRedraw,
            Event::Other => Action::Proceed,
        }
    }

    /// The size of the window.
    pub fn size(&self) -> (size: (u32, u32))
        ensures
            size == (self@.size.width, self@.size.height),
    {
        (self.size.width, self.size.height)
    }

    /// The title of the window.
    pub fn title(&self) -> (title: &String)
        ensures
            title@ == self@.title,
    {
        &self.title
    }

    /// Whether the window can be resized.
    pub fn resizable(&self) -> (resizable: bool)
        ensures
            resizable == self@.resizable,
    {
        self.resizable
    }
}

/// Where a window of size `window` is put so that its middle is the middle
/// of a monitor of size `monitor`, if the window is not larger than the
/// monitor: half the monitor less half the window, along each axis.
pub open spec fn centered_at(monitor: Size<u32>, window: Size<u32>) -> Option<Position<u32>> {
    if window.width / 2 <= monitor.width / 2 && window.height / 2 <= monitor.height / 2 {
        Some(
            Position {
                x: (monitor.width / 2 - window.width / 2) as u32,
                y: (monitor.height / 2 - window.height / 2) as u32,
            },
        )
    } else {
        None
    }
}

/// Where a window is put so that it stands in the middle of a monitor.
pub fn centered(monitor: Size<u32>, window: Size<u32>) -> (position: Option<Position<u32>>)
    ensures
        position == centered_at(monitor, window),
{
    if window.width / 2 <= monitor.width / 2 && window.height / 2 <= monitor.height / 2 {
        Some(Position { x: monitor.width / 2 - window.width / 2, y: monitor.height / 2 - window.height / 2 })
    } else {
        None
    }
}

/// Asks the event loop to end after the next frame.
pub fn abort(window: &mut Window)
    ensures
        final(window)@ == (WindowView { exit: true, ..old(window)@ }),
{
    window.exit = true;
}

/// The window's input, to change it.
pub fn input_mut(window: &mut Window) -> (input: &mut Input)
    ensures
        input@ == old(window)@.input,
        final(window)@ == (WindowView { input: final(input)@, ..old(window)@ }),
{
    &mut window.input
}

/// The window's input.
pub fn input(window: &Window) -> (input: &Input)
    ensures
        input@ == window@.input,
{
    &window.input
}

/// Gives the window a new title.
pub fn set_title(window: &mut Window, title: String)
    ensures
        final(window)@ == (WindowView { title: title@, ..old(window)@ }),
{
    window.title = title;
}

} // verus!
