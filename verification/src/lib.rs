//! A restartable pipeline that turns a video URL into stored audio, a
//! transcript and a summary.
//!
//! A run is a state machine ([`run`], [`pipeline`], [`transitions`]): it asks
//! its driver for one thing at a time (load the store, run a tool, list a
//! directory, save the store) and decides from the driver's report what
//! comes next. Every stage that the item's record marks complete is skipped,
//! and the whole vault is saved after every stage, so a run can be repeated
//! at any point. What holds of every run is proved in [`laws`].
//!
//! The other modules hold what the run builds on: item identifiers
//! ([`identity`]), the on-disk layout ([`paths`]), records and the vault
//! ([`record`]), the store file's content ([`store`]), the tools and what
//! their results mean ([`tools`], [`adapters`], [`artifacts`]), summaries
//! ([`summary`]), failures ([`errors`]), timestamps ([`clock`]) and text
//! helpers ([`text`]).

pub mod adapters;
pub mod artifacts;
pub mod clock;
pub mod errors;
pub mod identity;
pub mod laws;
pub mod paths;
pub mod pipeline;
pub mod record;
pub mod run;
pub mod store;
pub mod summary;
pub mod text;
pub mod tools;
pub mod transitions;
