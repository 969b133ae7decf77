//! Usage accounting for clients that expect a small context window.
//!
//! A backend with a very large context window reports raw token counts. A
//! client built for a much smaller window reads those counts to judge how
//! full its context is. This crate maps the raw counts onto the scale the
//! client expects, so that the client sees pressure grow at the rate it was
//! tuned for, and is prompted to compact its context in good time.
//!
//! * [`limits`] gives each model family its context window.
//! * [`scaling`] maps a raw prompt total to the total that is shown.
//! * [`usage`] converts a whole usage record, splitting the shown total into
//!   fresh input and cache reads.
//! * [`fraction`] and [`text`] hold the exact fractions and the substring
//!   search that the contracts of the others are stated with.

pub mod fraction;
pub mod limits;
pub mod scaling;
pub mod text;
pub mod usage;

pub use crate::limits::get_context_limit_for_model;
pub use crate::scaling::{scale_prompt_tokens, scaling_applies};
pub use crate::usage::{redistribute, to_claude_usage, ServerToolUse, Usage, UsageMetadata};
