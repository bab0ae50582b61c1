//! Fetch and apply orchestration for a companion of a game client that shows
//! the rune pages recommended for the champion the player has picked and
//! writes the chosen one to the client.
//!
//! The library decides; its caller acts. Once per refresh the caller hands
//! [`rune_viewport::render_runes_ui`] the connection, the picked champion and
//! what the user did, and gets back what to draw and which operations to
//! start. When an operation ends, the caller hands its result to
//! [`rune_viewport::RuneUIState::complete`]. Nothing here blocks, fetches or
//! draws.
//!
//! - [`task`]: the poll-once handle of one operation.
//! - [`cache`]: stores of handles and values that start each fetch once.
//! - [`selection`]: notices that the picked champion changed.
//! - [`rules`]: what each step of a cycle does, on mathematical values.
//! - [`rune_viewport`]: the state and the cycle that follows the rules.
//! - [`laws`]: what holds of the rules in every state.
//! - [`frame`]: what a cycle takes in and hands out.
//! - [`model`], [`web`]: the data of the game client and of the CDNs.
//! - [`strmap`], [`seqs`], [`decimal`]: maps by string, searching, decimal
//!   text.

pub mod cache;
pub mod decimal;
pub mod frame;
pub mod laws;
pub mod model;
pub mod rules;
pub mod rune_viewport;
pub mod selection;
pub mod seqs;
pub mod strmap;
pub mod task;
pub mod web;
