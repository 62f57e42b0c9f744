//! A personal task list: the records, the operations that change them, the
//! text form in which they are kept between runs, and the listing.
//!
//! The library works on values only. A caller reads the bytes of the backing
//! file, hands them with a command to [`command::run`], writes back the text
//! that the outcome holds, if any, and prints its lines. The steps of a run
//! are there on their own too: [`codec`] reads and writes the text, [`store`]
//! changes the list, [`table`] lays out the listing.
//!
//! The clock, the local time zone, the notation of timestamps, the quoting of
//! comma-separated text and the wording of relative times come from the crates
//! `chrono`, `csv` and `chrono-humanize`, letter case from the standard
//! library. The calls stand in [`clock`], [`timetext`], [`csvtext`], [`human`]
//! and [`lettercase`], each with a contract that is taken on trust; everything
//! else is proved.

pub mod clock;
pub mod codec;
pub mod command;
pub mod csvtext;
pub mod decimal;
pub mod due;
pub mod human;
pub mod lettercase;
pub mod seqs;
pub mod store;
pub mod table;
pub mod task;
pub mod theorems;
pub mod timestamp;
pub mod timetext;
