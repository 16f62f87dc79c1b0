//! Peaks measured in several coordinate spaces at once: the coordinate-space
//! tags, the index and charge capabilities, and the textual form of a
//! coordinate interval.
pub mod coordinate;
pub mod peak;
pub mod range;

pub use crate::coordinate::{IndexType, IndexedCoordinate, IonMobility, Mass, Time, MZ};
pub use crate::peak::{KnownCharge, KnownChargeMut};
pub use crate::range::{range_bounds, split_range_text, CoordinateRangeParseError};
