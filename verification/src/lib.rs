//! Bridge between an ITGIO-class USB dance-pad controller and a host that
//! speaks the sextet-stream text protocol over named pipes.
//!
//! The crate holds the verified core: the bit-level codec between 32-bit
//! hardware bitmaps and printable sextet lines, the logical-light mapping
//! table, the control-transfer protocol around the USB device, and the
//! per-iteration decisions of the two relay loops. Thread spawning and the
//! pipe file descriptors themselves live with the caller.

pub mod device;
pub mod itgio;
pub mod mapping;
pub mod sextetstream;
