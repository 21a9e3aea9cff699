//! A multi-sink logger: one named logger fans each leveled message out to
//! every attached console or file sink, in attachment order.
//!
//! The library decides what is written where; the caller performs the
//! writes it hands back as `Delivery` values.
mod text;
pub mod path;
pub mod level;
pub mod render;
pub mod sink;
pub mod logger;

pub use level::{Level, LogLevel};
pub use logger::{Logger, OutputLogger};
pub use path::{decompose, directory_chain};
pub use render::{ClockTime, console_tag_of, format_time, render_line};
pub use sink::{Delivery, Output, file_entry};
