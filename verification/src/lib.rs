//! A split-flap display board composed from three feeds: the clock, the song
//! that a music service is playing, and the temperature outside.
//!
//! The board is a grid of character codes. Each feed has its own rows and its
//! own pace: the clock is rendered when the minute changes, the music feed is
//! asked every few seconds, the weather every few minutes. The composer puts
//! the three together and says, step by step, what the program around it is to
//! do next: ask a feed, or send the board to the display.
//!
//! - `convert`: the character encoder.
//! - `layout`: the line layout engine.
//! - `grid`: the grid buffer and its regions.
//! - `scheduler`: which feed is due.
//! - `clock`, `spotify`, `weather`: what the feeds deliver.
//! - `adapters`: how each feed writes into its region.
//! - `composer`: the composition loop.

pub mod adapters;
pub mod clock;
pub mod composer;
pub mod convert;
pub mod grid;
pub mod layout;
pub mod scheduler;
pub mod spotify;
pub mod weather;
