//! Driver logic for a two-line, sixteen-column character display with an RGB
//! backlight, reached over a shared two-wire bus.
//!
//! The library performs no bus traffic itself. Every operation of [`display::Display`]
//! yields a [`transaction::Transaction`]: the exact list of bus writes and
//! settle delays that the operation consists of, together with the bookkeeping
//! that decides which of them is due next and when the operation has ended.
//! The caller performs each step on the hardware and reports how it went.
pub mod consts;
pub mod step;
pub mod command;
pub mod sequence;
pub mod transaction;
pub mod display;
