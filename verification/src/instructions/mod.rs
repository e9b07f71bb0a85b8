//! The instructions of the ledger, one file each.

pub mod add_comment;
pub mod add_reaction;
pub mod initialize_tweet;
pub mod remove_comment;
pub mod remove_reaction;
pub mod tip_tweet;

pub use crate::errors::TipError;
pub use add_comment::{add_comment, AddCommentContext};
pub use add_reaction::{add_reaction, AddReactionContext};
pub use initialize_tweet::{initialize_tweet, InitializeTweet};
pub use remove_comment::{remove_comment, RemoveCommentContext};
pub use remove_reaction::{remove_reaction, RemoveReactionContext};
pub use tip_tweet::{handle_tip_tweet, TipTweet};
