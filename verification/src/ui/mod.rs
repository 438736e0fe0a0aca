//! The parts of the text user interface that do not draw: the order of
//! the screens, the state of the widgets, and colours.

pub mod context;
pub mod screens;
pub mod widgets;

pub use screens::Screen;
