//! What the drawing layer is told.

pub mod channels;
