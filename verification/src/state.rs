//! The record itself, its length rules and its storage layout.

use vstd::prelude::*;
use vstd::utf8::{encode_scalar, encode_utf8};
use crate::pubkey::Pubkey;

verus! {

/// Bytes of the type discriminator that opens a stored record.
pub const DISCRIMINATOR_LENGTH: usize = 8;

/// Bytes of the stored author key.
pub const PUBLIC_KEY_LENGTH: usize = 32;

/// Bytes of the stored timestamp.
pub const TIMESTAMP_LENGTH: usize = 8;

/// Bytes of the length prefix that precedes each stored text.
pub const STRING_LENGTH_PREFIX: usize = 4;

/// Most characters a topic may have.
pub const MAX_TOPIC_CHARS: usize = 50;

/// Most characters a content may have.
pub const MAX_CONTENT_CHARS: usize = 280;

/// Bytes set aside for the topic: four for each character allowed.
pub const MAX_TOPIC_LENGTH: usize = 50 * 4;

/// Bytes set aside for the content: four for each character allowed.
pub const MAX_CONTENT_LENGTH: usize = 280 * 4;

/// A stored message.
#[derive(Clone, Debug, PartialEq, Eq)]
pub struct Tweet {
    /// Who wrote the message, and who alone may change or remove it.
    pub author: Pubkey,
    /// Host time, in seconds, at which the message was stored.
    pub timestamp: i64,
    pub topic: String,
    pub content: String,
}

/// What a `Tweet` holds, with each text as its sequence of characters.
pub struct TweetView {
    pub author: Pubkey,
    pub timestamp: int,
    pub topic: Seq<char>,
    pub content: Seq<char>,
}

impl TweetView {
    /// Both texts are within their limits, counted in characters.
    pub open spec fn within_limits(self) -> bool {
        self.topic.len() <= MAX_TOPIC_CHARS && self.content.len() <= MAX_CONTENT_CHARS
    }

    /// Bytes that the record takes in storage: the discriminator, the author,
    /// the timestamp, and each text in UTF-8 behind its length prefix.
    pub open spec fn stored_len(self) -> nat {
        (DISCRIMINATOR_LENGTH + PUBLIC_KEY_LENGTH + TIMESTAMP_LENGTH) as nat
            + STRING_LENGTH_PREFIX as nat + encode_utf8(self.topic).len()
            + STRING_LENGTH_PREFIX as nat + encode_utf8(self.content).len()
    }
}

impl View for Tweet {
    type V = TweetView;

    open spec fn view(&self) -> TweetView {
        TweetView {
            author: self.author,
            timestamp: self.timestamp as int,
            topic: self.topic@,
            content: self.content@,
        }
    }
}

impl Tweet {
    /// Bytes to allocate for one stored record: the discriminator, the
    /// author, the timestamp, and each text with its prefix at full capacity.
    pub const LEN: usize = 8 + 32 + 8 + (4 + 200) + (4 + 1120);
}

/// The allocation is the sum of the parts of the layout, 1376 bytes.
pub proof fn lemma_len_is_sum_of_layout()
    ensures
        Tweet::LEN == DISCRIMINATOR_LENGTH + PUBLIC_KEY_LENGTH + TIMESTAMP_LENGTH
            + STRING_LENGTH_PREFIX + MAX_TOPIC_LENGTH + STRING_LENGTH_PREFIX + MAX_CONTENT_LENGTH,
        Tweet::LEN == 1376,
        MAX_TOPIC_LENGTH == 4 * MAX_TOPIC_CHARS,
        MAX_CONTENT_LENGTH == 4 * MAX_CONTENT_CHARS,
{
}

/// A text takes at least one byte and at most four for each of its
/// characters.
pub proof fn lemma_encoded_len_bounds(text: Seq<char>)
    ensures
        text.len() <= encode_utf8(text).len() <= 4 * text.len(),
    decreases text.len(),
{
    if text.len() > 0 {
        let first = encode_scalar(text[0] as u32);
        assert(1 <= first.len() <= 4);
        lemma_encoded_len_bounds(text.drop_first());
        assert(encode_utf8(text).len() == first.len() + encode_utf8(text.drop_first()).len());
    }
}

/// A record within the length limits fits the allocation, whatever its
/// characters: the limits count characters, the allocation counts bytes.
pub proof fn law_record_fits_allocation(tweet: TweetView)
    requires
        tweet.within_limits(),
    ensures
        tweet.stored_len() <= Tweet::LEN,
{
    lemma_encoded_len_bounds(tweet.topic);
    lemma_encoded_len_bounds(tweet.content);
}

} // verus!
