//! A small record store for short public messages ("tweets").
//!
//! Each record lives in a storage slot of its own, is stamped with its author
//! and the time of its creation, and may afterwards be changed or removed by
//! that author alone. The rules of the store are stated as contracts over a
//! mathematical model of the accounts, and proved.

pub mod accounts;
pub mod clock;
pub mod error;
pub mod instructions;
pub mod laws;
pub mod pubkey;
pub mod state;

pub use accounts::{DeleteTweet, SendTweet, Signer, TweetAccount, UpdateTweet};
pub use error::{ErrorCode, SendTweetError};
pub use instructions::{check_lengths, delete_tweet, send_tweet, send_tweet_at, update_tweet};
pub use pubkey::Pubkey;
pub use state::Tweet;
