//! Geometry of the gears and the rack of a logo animation: the quantities
//! that place gear and rack sprites so that their teeth mesh.
//!
//! Lengths are whole length units (pixels, say). A pitch is an exact
//! fraction: for a rack a length, for a gear a multiple of pi.
pub mod gear;

pub use gear::{Gear, GeometryError, Rack, Ratio};
