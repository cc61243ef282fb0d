//! Conversion between calendar timestamps and the packed 32-bit MS-DOS
//! date/time format used by FAT file systems and ZIP archive headers.
pub mod calendar;
pub mod codec;
pub mod laws;
pub mod packed;

pub use calendar::CalendarTimestamp;
pub use codec::{msdos_to_tm, tm_to_msdos, TmMsDosExt};
pub use packed::MsDosDateTime;
