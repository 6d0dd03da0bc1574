//! What holds of the store whatever the request. Each law is stated over the
//! model of the accounts that the contracts of the three requests use.

use vstd::prelude::*;
use crate::accounts::{Accounts, TweetAccountView};
use crate::error::ErrorCode;
use crate::instructions::{
    after_delete, after_send, after_update, delete_verdict, length_verdict, send_verdict,
    update_verdict,
};
use crate::state::TweetView;

verus! {

/// A pair of texts is accepted exactly when the topic has at most 50
/// characters and the content at most 280; the topic is judged first.
pub proof fn law_lengths_decide(topic: Seq<char>, content: Seq<char>)
    ensures
        length_verdict(topic, content) is Ok <==> topic.len() <= 50 && content.len() <= 280,
        length_verdict(topic, content) == Err::<(), ErrorCode>(ErrorCode::TopicTooLong)
            <==> topic.len() > 50,
        length_verdict(topic, content) == Err::<(), ErrorCode>(ErrorCode::ContentTooLong)
            <==> topic.len() <= 50 && content.len() > 280,
        length_verdict(topic, content) != Err::<(), ErrorCode>(ErrorCode::Unauthorized),
{
}

/// The limits are exact: 50 and 280 characters pass, one more of either
/// fails.
pub proof fn law_limits_are_exact(topic: Seq<char>, content: Seq<char>)
    ensures
        topic.len() == 50 && content.len() == 280 ==> length_verdict(topic, content) is Ok,
        topic.len() == 51 ==> length_verdict(topic, content) == Err::<(), ErrorCode>(
            ErrorCode::TopicTooLong,
        ),
        topic.len() <= 50 && content.len() == 281 ==> length_verdict(topic, content) == Err::<
            (),
            ErrorCode,
        >(ErrorCode::ContentTooLong),
{
}

/// A request to store texts within the limits succeeds, and the record then
/// in the slot holds exactly these texts, the signer as author and the given
/// time. The deposit and the signer are as before.
pub proof fn law_send_stores_inputs(
    before: Accounts,
    now: int,
    topic: Seq<char>,
    content: Seq<char>,
)
    requires
        topic.len() <= 50,
        content.len() <= 280,
    ensures
        send_verdict(topic, content) is Ok,
        after_send(before, now, topic, content).tweet.data == Some(
            TweetView { author: before.author.key, timestamp: now, topic, content },
        ),
        after_send(before, now, topic, content).tweet.lamports == before.tweet.lamports,
        after_send(before, now, topic, content).author == before.author,
        after_send(before, now, topic, content).tweet.well_formed(),
        after_send(before, now, topic, content).authorized(),
{
}

/// A request to store a topic of more than 50 characters fails with
/// `TopicTooLong`, whatever the content, and an empty slot stays empty.
pub proof fn law_send_refuses_long_topic(
    before: Accounts,
    now: int,
    topic: Seq<char>,
    content: Seq<char>,
)
    requires
        topic.len() > 50,
    ensures
        send_verdict(topic, content) == Err::<(), ErrorCode>(ErrorCode::TopicTooLong),
        after_send(before, now, topic, content) == before,
        before.tweet.data is None ==> after_send(before, now, topic, content).tweet.data is None,
{
}

/// A request to store a content of more than 280 characters under a topic
/// within its limit fails with `ContentTooLong`, and an empty slot stays
/// empty.
pub proof fn law_send_refuses_long_content(
    before: Accounts,
    now: int,
    topic: Seq<char>,
    content: Seq<char>,
)
    requires
        topic.len() <= 50,
        content.len() > 280,
    ensures
        send_verdict(topic, content) == Err::<(), ErrorCode>(ErrorCode::ContentTooLong),
        after_send(before, now, topic, content) == before,
        before.tweet.data is None ==> after_send(before, now, topic, content).tweet.data is None,
{
}

/// A change asked by the author, with texts within the limits, succeeds and
/// replaces the topic and the content and nothing else: author, timestamp,
/// deposit and signer are as before.
pub proof fn law_update_replaces_texts_only(
    before: Accounts,
    topic: Seq<char>,
    content: Seq<char>,
)
    requires
        before.authorized(),
        topic.len() <= 50,
        content.len() <= 280,
    ensures
        update_verdict(before, topic, content) is Ok,
        after_update(before, topic, content).tweet.data == Some(
            TweetView {
                author: before.tweet.data->0.author,
                timestamp: before.tweet.data->0.timestamp,
                topic,
                content,
            },
        ),
        after_update(before, topic, content).tweet.lamports == before.tweet.lamports,
        after_update(before, topic, content).author == before.author,
{
}

/// No request to change a record ever changes its author or its timestamp,
/// nor makes a record where there was none.
pub proof fn law_author_and_time_are_fixed(
    before: Accounts,
    topic: Seq<char>,
    content: Seq<char>,
)
    ensures
        after_update(before, topic, content).tweet.data is Some <==> before.tweet.data is Some,
        before.tweet.data is Some ==> after_update(before, topic, content).tweet.data->0.author
            == before.tweet.data->0.author && after_update(
            before,
            topic,
            content,
        ).tweet.data->0.timestamp == before.tweet.data->0.timestamp,
{
}

/// A request to change or to remove a record, signed by anyone but its
/// author, is refused as `Unauthorized` and changes nothing. A slot without
/// a record has no author, so every such request on it is refused.
pub proof fn law_stranger_changes_nothing(
    before: Accounts,
    topic: Seq<char>,
    content: Seq<char>,
)
    requires
        before.tweet.data is None || before.tweet.data->0.author != before.author.key,
    ensures
        update_verdict(before, topic, content) == Err::<(), ErrorCode>(ErrorCode::Unauthorized),
        after_update(before, topic, content) == before,
        delete_verdict(before) == Err::<(), ErrorCode>(ErrorCode::Unauthorized),
        after_delete(before) == before,
{
}

/// A removal asked by the author succeeds: the slot then holds no record
/// and no deposit, the author's balance has grown by the deposit, and no
/// lamport was made or lost.
pub proof fn law_delete_frees_slot_and_refunds(before: Accounts)
    requires
        before.authorized(),
    ensures
        delete_verdict(before) is Ok,
        after_delete(before).tweet == (TweetAccountView { lamports: 0, data: None }),
        after_delete(before).author.key == before.author.key,
        after_delete(before).author.lamports == before.author.lamports + before.tweet.lamports,
        after_delete(before).tweet.lamports + after_delete(before).author.lamports
            == before.tweet.lamports + before.author.lamports,
{
}

/// Removal is final: on a slot whose record was removed, every further
/// request to change or to remove is refused and changes nothing.
pub proof fn law_delete_is_final(before: Accounts, topic: Seq<char>, content: Seq<char>)
    requires
        before.authorized(),
    ensures
        !after_delete(before).authorized(),
        update_verdict(after_delete(before), topic, content) == Err::<(), ErrorCode>(
            ErrorCode::Unauthorized,
        ),
        delete_verdict(after_delete(before)) == Err::<(), ErrorCode>(ErrorCode::Unauthorized),
        after_delete(after_delete(before)) == after_delete(before),
{
}

/// The author of a record is the signer of the request that stored it: that
/// signer, and nobody else, may afterwards change or remove it.
pub proof fn law_only_the_sender_owns(
    before: Accounts,
    now: int,
    topic: Seq<char>,
    content: Seq<char>,
    other: Accounts,
)
    requires
        before.tweet.data is None,
        send_verdict(topic, content) is Ok,
        other.tweet == after_send(before, now, topic, content).tweet,
    ensures
        other.authorized() <==> other.author.key == before.author.key,
{
}

/// The length limits hold of a record at all times: a slot whose record is
/// within the limits, or that has none, is so after any request, accepted
/// or not.
pub proof fn law_limits_always_hold(
    before: Accounts,
    now: int,
    topic: Seq<char>,
    content: Seq<char>,
)
    requires
        before.tweet.well_formed(),
    ensures
        after_send(before, now, topic, content).tweet.well_formed(),
        after_update(before, topic, content).tweet.well_formed(),
        after_delete(before).tweet.well_formed(),
{
}

} // verus!
