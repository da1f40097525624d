//! Visual attributes, status-line segments, and the per-frame presenter.

pub mod call;
pub mod color;
pub mod data;
pub mod frame;
pub mod painter;
pub mod position;
pub mod presenter;
pub mod style;

pub use self::call::{DrawCall, DrawCallView};
pub use self::color::Colors;
pub use self::data::{StatusLineData, StatusLineView};
pub use self::painter::{Painter, PainterView};
pub use self::position::{Cell, Position};
pub use self::presenter::{Presenter, PresenterView};
pub use self::style::Style;
