//! Bang-bang motion profiles: their shape, their segments and the lookups
//! on them. The library selects shapes and segments; the times, positions
//! and velocities that a profile is made of come from the caller.
pub mod bangbang1d;
pub mod bangbang2d;

pub use bangbang1d::{BangBang1d, BangBangPart, Knot, ProfileShape, Segment};
pub use bangbang2d::{BangBang2d, SearchStep};
