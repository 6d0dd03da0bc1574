//! The three requests that the store serves: store a new record, change one,
//! remove one. Each is given first as a function on the model of the accounts
//! and then as the code that carries it out.

use vstd::prelude::*;
use crate::accounts::{
    Accounts, DeleteTweet, SendTweet, SignerView, TweetAccountView, UpdateTweet,
};
use crate::clock::host_unix_timestamp;
use crate::error::{ErrorCode, SendTweetError};
use crate::state::{Tweet, TweetView, MAX_CONTENT_CHARS, MAX_TOPIC_CHARS};

verus! {

/// The verdict on a pair of texts: the topic is judged first, then the
/// content. Lengths are counted in characters, not in bytes.
pub open spec fn length_verdict(topic: Seq<char>, content: Seq<char>) -> Result<(), ErrorCode> {
    if topic.len() > MAX_TOPIC_CHARS {
        Err(ErrorCode::TopicTooLong)
    } else if content.len() > MAX_CONTENT_CHARS {
        Err(ErrorCode::ContentTooLong)
    } else {
        Ok(())
    }
}

/// The answer to a request to store a new record.
pub open spec fn send_verdict(topic: Seq<char>, content: Seq<char>) -> Result<(), ErrorCode> {
    length_verdict(topic, content)
}

/// The accounts after a request to store a new record at time `now`: where
/// the request is accepted the slot holds the new record, written by the
/// signer; where it is not, nothing has changed.
pub open spec fn after_send(
    before: Accounts,
    now: int,
    topic: Seq<char>,
    content: Seq<char>,
) -> Accounts {
    if send_verdict(topic, content) is Ok {
        Accounts {
            tweet: TweetAccountView {
                lamports: before.tweet.lamports,
                data: Some(
                    TweetView { author: before.author.key, timestamp: now, topic, content },
                ),
            },
            author: before.author,
        }
    } else {
        before
    }
}

/// The answer to a request to change a record: only the author is heard, and
/// the new texts are then judged as those of a new record are.
pub open spec fn update_verdict(
    before: Accounts,
    topic: Seq<char>,
    content: Seq<char>,
) -> Result<(), ErrorCode> {
    if !before.authorized() {
        Err(ErrorCode::Unauthorized)
    } else {
        length_verdict(topic, content)
    }
}

/// The accounts after a request to change a record: where the request is
/// accepted the record has the new texts and its old author and timestamp;
/// where it is not, nothing has changed.
pub open spec fn after_update(before: Accounts, topic: Seq<char>, content: Seq<char>) -> Accounts {
    if update_verdict(before, topic, content) is Ok {
        Accounts {
            tweet: TweetAccountView {
                lamports: before.tweet.lamports,
                data: Some(
                    TweetView {
                        author: before.tweet.data->0.author,
                        timestamp: before.tweet.data->0.timestamp,
                        topic,
                        content,
                    },
                ),
            },
            author: before.author,
        }
    } else {
        before
    }
}

/// The answer to a request to remove a record: only the author is heard.
pub open spec fn delete_verdict(before: Accounts) -> Result<(), ErrorCode> {
    if !before.authorized() {
        Err(ErrorCode::Unauthorized)
    } else {
        Ok(())
    }
}

/// The accounts after a request to remove a record: where the request is
/// accepted the slot holds neither record nor deposit, and the deposit has
/// gone to the author; where it is not, nothing has changed.
pub open spec fn after_delete(before: Accounts) -> Accounts {
    if delete_verdict(before) is Ok {
        Accounts {
            tweet: TweetAccountView { lamports: 0, data: None },
            author: SignerView {
                key: before.author.key,
                lamports: before.author.lamports + before.tweet.lamports,
            },
        }
    } else {
        before
    }
}

/// Judges the lengths of a topic and a content.
pub fn check_lengths(topic: &str, content: &str) -> (verdict: Result<(), ErrorCode>)
    ensures
        verdict == length_verdict(topic@, content@),
{
    if topic.unicode_len() > MAX_TOPIC_CHARS {
        return Err(ErrorCode::TopicTooLong);
    }
    if content.unicode_len() > MAX_CONTENT_CHARS {
        return Err(ErrorCode::ContentTooLong);
    }
    Ok(())
}

/// Stores a new record, stamped with the given time, in a slot that holds
/// none. The signer becomes its author.
pub fn send_tweet_at(
    ctx: &mut SendTweet,
    unix_timestamp: i64,
    topic: String,
    content: String,
) -> (result: Result<(), ErrorCode>)
    requires
        old(ctx).tweet.data is None,
    ensures
        result == send_verdict(topic@, content@),
        final(ctx)@ == after_send(old(ctx)@, unix_timestamp as int, topic@, content@),
        result is Err ==> *final(ctx) == *old(ctx),
        final(ctx).author == old(ctx).author,
        final(ctx).tweet.lamports == old(ctx).tweet.lamports,
        final(ctx).tweet@.well_formed(),
{
    match check_lengths(topic.as_str(), content.as_str()) {
        Err(code) => Err(code),
        Ok(()) => {
            ctx.tweet.data = Some(
                Tweet { author: ctx.author.key, timestamp: unix_timestamp, topic, content },
            );
            Ok(())
        },
    }
}

/// Stores a new record in a slot that holds none, stamped with the time that
/// the host's clock gives. The clock is asked first: where it gives no time
/// the request ends there. Whatever the clock says, a request with a text
/// that is too long fails and changes nothing, and a request that succeeds
/// has stored exactly the given texts under the signer's key.
pub fn send_tweet(
    ctx: &mut SendTweet,
    topic: String,
    content: String,
) -> (result: Result<(), SendTweetError>)
    requires
        old(ctx).tweet.data is None,
    ensures
        result is Ok ==> send_verdict(topic@, content@) is Ok && exists|now: i64|
            final(ctx)@ == after_send(old(ctx)@, now as int, topic@, content@),
        result is Err ==> *final(ctx) == *old(ctx),
        result is Err ==> result->Err_0 == SendTweetError::ClockUnavailable || (send_verdict(
            topic@,
            content@,
        ) is Err && result->Err_0 == SendTweetError::Rejected(
            send_verdict(topic@, content@)->Err_0,
        )),
        final(ctx).author == old(ctx).author,
        final(ctx).tweet.lamports == old(ctx).tweet.lamports,
        final(ctx).tweet@.well_formed(),
{
    match host_unix_timestamp() {
        Err(_) => Err(SendTweetError::ClockUnavailable),
        Ok(now) => match send_tweet_at(ctx, now, topic, content) {
            Ok(()) => Ok(()),
            Err(code) => Err(SendTweetError::Rejected(code)),
        },
    }
}

/// Replaces the topic and the content of a record, on its author's request.
/// The author and the timestamp of the record stay as they are.
pub fn update_tweet(
    ctx: &mut UpdateTweet,
    topic: String,
    content: String,
) -> (result: Result<(), ErrorCode>)
    ensures
        result == update_verdict(old(ctx)@, topic@, content@),
        final(ctx)@ == after_update(old(ctx)@, topic@, content@),
        result is Err ==> *final(ctx) == *old(ctx),
        final(ctx).author == old(ctx).author,
        final(ctx).tweet.lamports == old(ctx).tweet.lamports,
        old(ctx).tweet@.well_formed() ==> final(ctx).tweet@.well_formed(),
{
    let (author, timestamp) = match &ctx.tweet.data {
        None => {
            return Err(ErrorCode::Unauthorized);
        },
        Some(tweet) => (tweet.author, tweet.timestamp),
    };
    if author != ctx.author.key {
        return Err(ErrorCode::Unauthorized);
    }
    match check_lengths(topic.as_str(), content.as_str()) {
        Err(code) => Err(code),
        Ok(()) => {
            ctx.tweet.data = Some(Tweet { author, timestamp, topic, content });
            Ok(())
        },
    }
}

/// Removes a record on its author's request: the slot is left without
/// record and without deposit, and the deposit is added to the author's
/// balance.
pub fn delete_tweet(ctx: &mut DeleteTweet) -> (result: Result<(), ErrorCode>)
    requires
        old(ctx)@.authorized() ==> old(ctx).author.lamports + old(ctx).tweet.lamports <= u64::MAX,
    ensures
        result == delete_verdict(old(ctx)@),
        final(ctx)@ == after_delete(old(ctx)@),
        result is Err ==> *final(ctx) == *old(ctx),
        old(ctx).tweet@.well_formed() ==> final(ctx).tweet@.well_formed(),
{
    let authorized = match &ctx.tweet.data {
        None => false,
        Some(tweet) => tweet.author == ctx.author.key,
    };
    if !authorized {
        return Err(ErrorCode::Unauthorized);
    }
    ctx.author.lamports = ctx.author.lamports + ctx.tweet.lamports;
    ctx.tweet.lamports = 0;
    ctx.tweet.data = None;
    Ok(())
}

} // verus!
