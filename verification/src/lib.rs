//! Times between zones: find a zone by a loosely typed name, read a loosely
//! typed date or time as an instant in that zone, and show the instant in
//! another.

pub mod catalog;
pub mod instant;
pub mod shape;
pub mod system;
pub mod text;

pub use crate::catalog::{parse_tz, Catalog, Zone};
pub use crate::instant::{convert, parse_datetime_in_tz, LocalTimes, ResolvedInstant};
pub use crate::shape::{parse_short_time, WallClock};
pub use crate::system::{current_tz, CurrentTzError, ZoneSetting};
