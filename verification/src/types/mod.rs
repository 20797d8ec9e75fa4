mod color;
mod delta;
pub mod errors;
mod position;
mod rectangle;
mod size;

pub use color::Color;
pub use delta::Delta;
pub use position::Position;
pub use rectangle::Rectangle;
pub use size::Size;
