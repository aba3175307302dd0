//! Compositing and animation core of a networked pixel-panel display.
//!
//! Widgets publish RGBA frames into per-widget cells; the compositor blends the
//! visible ones, in order, onto an opaque canvas. Every function is verified
//! against a contract over the pixel contents of the buffers it touches.

pub mod pixel;
pub mod frame;
pub mod screen;
pub mod movers;
pub mod widgets;

pub use screen::Drawable;
pub use screen::PartContent;
pub use screen::Screen;
pub use widgets::message;
pub use widgets::Widget;
pub use widgets::WidgetConf;
