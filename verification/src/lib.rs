//! Rendering core of a battery bar: the edge it is anchored to, the theme that
//! colours it, the state machine that decides when to repaint, and the painter.

pub mod color;
pub mod convert;
pub mod document;
pub mod gradient;
pub mod level;
pub mod paint;
pub mod power;
pub mod side;
pub mod surface;
pub mod text;
pub mod theme;
