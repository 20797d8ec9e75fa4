mod input;
mod keys;
mod window;

pub use input::{known, lookup, Input, InputView};
pub use keys::{press_states, PressMap, PressState, PressType};
pub use window::{
    abort, centered, centered_at, input, input_mut, set_title, Action, Event, Window, WindowConfig, WindowView,
};
