//! Numbers and plane geometry as the library carries them.
pub mod line;
pub mod point;
pub mod reactive;
pub mod rect;
pub mod scalar;
pub mod vec;

pub use line::{Line, LinesParallelError};
pub use point::Point2;
pub use reactive::{get_reactive, Reactive};
pub use rect::Rect;
pub use scalar::Scalar;
pub use vec::Vec2;
