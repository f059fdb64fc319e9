//! A smartwatch watchface library.
//!
//! A `Watchface` is an immutable snapshot of the values a watchface shows:
//! an optional local time, an optional battery charge level and an optional
//! charger state. A pluggable style turns one snapshot into a scene of
//! drawing elements; the battery portion of a scene is a layered glyph
//! computed by `BatteryIcon`.

pub mod battery;
pub mod battery_icon;
pub mod draw_command;
pub mod font;
pub mod geometry;
pub mod simple_watchface;
pub mod styled;
pub mod text_format;
pub mod textual_time_watchface;
pub mod time;
pub mod watchface_data;

pub use battery::ChargerState;
pub use battery::StateOfCharge;
pub use simple_watchface::SimpleWatchfaceStyle;
pub use styled::Styled;
pub use styled::WatchfaceStyle;
pub use textual_time_watchface::TextualTimeWatchfaceStyle;
pub use watchface_data::Watchface;
pub use watchface_data::WatchfaceBuilder;
