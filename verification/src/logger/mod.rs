mod filter;
mod format;
mod paint;

pub use filter::Filter;
pub use format::{
    assemble, line_of, log_line, origin, origin_of, record_line, text_of, Level,
};
pub use paint::{escape, packed, starts_escape};
