//! Chuckle: the decision and formatting logic of a Discord bot for
//! engineering teams, with its contracts proved by Verus.
pub mod chunkify;
pub mod text;
pub mod github;
pub mod config;
pub mod threads;
pub mod hexil;
pub mod poll;
pub mod random;
pub mod poll_results;
pub mod breakout;
pub mod settings;
pub mod pr_comments;
pub mod circle_back;
pub mod routing;
