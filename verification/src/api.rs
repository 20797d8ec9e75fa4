use vstd::prelude::*;

use crate::window::{Input, Window, WindowView};

verus! {

/// Asks the event loop to end after the next frame.
pub fn abort(window: &mut Window)
    ensures
        final(window)@ == (WindowView { exit: true, ..old(window)@ }),
{
    crate::window::abort(window);
}

/// The window's input, to change it.
pub fn input_mut(window: &mut Window) -> (input: &mut Input)
    ensures
        input@ == old(window)@.input,
        final(window)@ == (WindowView { input: final(input)@, ..old(window)@ }),
{
    crate::window::input_mut(window)
}

/// The window's input.
pub fn input(window: &Window) -> (input: &Input)
    ensures
        input@ == window@.input,
{
    crate::window::input(window)
}

/// Gives the window a new title.
pub fn set_title(window: &mut Window, title: String)
    ensures
        final(window)@ == (WindowView { title: title@, ..old(window)@ }),
{
    crate::window::set_title(window, title);
}

} // verus!
