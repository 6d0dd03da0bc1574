use solana_twitter::state::{
    DISCRIMINATOR_LENGTH, MAX_CONTENT_CHARS, MAX_CONTENT_LENGTH, MAX_TOPIC_CHARS,
    MAX_TOPIC_LENGTH, PUBLIC_KEY_LENGTH, STRING_LENGTH_PREFIX, TIMESTAMP_LENGTH,
};
use solana_twitter::{
    check_lengths, delete_tweet, send_tweet, send_tweet_at, update_tweet, DeleteTweet, ErrorCode,
    Pubkey, SendTweet, SendTweetError, Signer, Tweet, TweetAccount, UpdateTweet,
};

fn key(fill: u8) -> Pubkey {
    Pubkey::new_from_array([fill; 32])
}

fn fresh(author: u8) -> SendTweet {
    SendTweet {
        tweet: TweetAccount::empty(9_000_000),
        author: Signer { key: key(author), lamports: 1_000 },
    }
}

fn stored(author: u8, timestamp: i64, topic: &str, content: &str) -> TweetAccount {
    let mut ctx = fresh(author);
    assert_eq!(send_tweet_at(&mut ctx, timestamp, topic.to_string(), content.to_string()), Ok(()));
    ctx.tweet
}

fn text(c: char, n: usize) -> String {
    std::iter::repeat(c).take(n).collect()
}

#[test]
fn create_stores_the_inputs() {
    let mut ctx = fresh(7);
    let result = send_tweet_at(&mut ctx, 1_650_000_000, "solana".to_string(), "gm".to_string());
    assert_eq!(result, Ok(()));
    assert_eq!(
        ctx.tweet.data,
        Some(Tweet {
            author: key(7),
            timestamp: 1_650_000_000,
            topic: "solana".to_string(),
            content: "gm".to_string(),
        })
    );
    assert_eq!(ctx.tweet.lamports, 9_000_000);
    assert_eq!(ctx.author, Signer { key: key(7), lamports: 1_000 });
}

#[test]
fn create_accepts_empty_texts_and_negative_time() {
    let mut ctx = fresh(1);
    assert_eq!(send_tweet_at(&mut ctx, -5, String::new(), String::new()), Ok(()));
    let tweet = ctx.tweet.record().expect("a record");
    assert_eq!(tweet.timestamp, -5);
    assert_eq!(tweet.topic, "");
    assert_eq!(tweet.content, "");
}

#[test]
fn create_accepts_the_longest_texts() {
    let mut ctx = fresh(2);
    let topic = text('t', 50);
    let content = text('c', 280);
    assert_eq!(send_tweet_at(&mut ctx, 12, topic.clone(), content.clone()), Ok(()));
    let tweet = ctx.tweet.record().expect("a record");
    assert_eq!(tweet.topic, topic);
    assert_eq!(tweet.content, content);
}

#[test]
fn create_refuses_topic_of_51() {
    let mut ctx = fresh(2);
    let before = ctx.clone();
    let result = send_tweet_at(&mut ctx, 12, text('t', 51), "gm".to_string());
    assert_eq!(result, Err(ErrorCode::TopicTooLong));
    assert_eq!(ctx, before);
    assert!(ctx.tweet.record().is_none());
}

#[test]
fn create_refuses_content_of_281() {
    let mut ctx = fresh(2);
    let before = ctx.clone();
    let result = send_tweet_at(&mut ctx, 12, "solana".to_string(), text('c', 281));
    assert_eq!(result, Err(ErrorCode::ContentTooLong));
    assert_eq!(ctx, before);
    assert!(ctx.tweet.record().is_none());
}

#[test]
fn topic_is_judged_before_content() {
    let mut ctx = fresh(2);
    let result = send_tweet_at(&mut ctx, 12, text('t', 51), text('c', 281));
    assert_eq!(result, Err(ErrorCode::TopicTooLong));
    assert!(ctx.tweet.record().is_none());
}

#[test]
fn lengths_count_characters_not_bytes() {
    // 50 characters of four bytes each: 200 bytes, still a topic.
    let topic = text('\u{1F980}', 50);
    assert_eq!(topic.len(), 200);
    let content = text('\u{00E9}', 280);
    assert_eq!(content.len(), 560);
    assert_eq!(check_lengths(&topic, &content), Ok(()));
    assert_eq!(check_lengths(&text('\u{1F980}', 51), &content), Err(ErrorCode::TopicTooLong));
    assert_eq!(check_lengths(&topic, &text('\u{00E9}', 281)), Err(ErrorCode::ContentTooLong));
    // 60 bytes, but only 30 characters.
    assert_eq!(check_lengths(&text('\u{00E9}', 30), ""), Ok(()));
}

#[test]
fn check_lengths_at_the_limits() {
    assert_eq!(check_lengths("", ""), Ok(()));
    assert_eq!(check_lengths(&text('a', 50), &text('b', 280)), Ok(()));
    assert_eq!(check_lengths(&text('a', 51), &text('b', 280)), Err(ErrorCode::TopicTooLong));
    assert_eq!(check_lengths(&text('a', 50), &text('b', 281)), Err(ErrorCode::ContentTooLong));
    assert_eq!(check_lengths(&text('a', 1000), ""), Err(ErrorCode::TopicTooLong));
}

#[test]
fn update_replaces_topic_and_content_only() {
    let mut ctx =
        UpdateTweet { tweet: stored(7, 1_650_000_000, "solana", "gm"), author: Signer { key: key(7), lamports: 3 } };
    let result = update_tweet(&mut ctx, "anchor".to_string(), "gm friend".to_string());
    assert_eq!(result, Ok(()));
    assert_eq!(
        ctx.tweet.data,
        Some(Tweet {
            author: key(7),
            timestamp: 1_650_000_000,
            topic: "anchor".to_string(),
            content: "gm friend".to_string(),
        })
    );
    assert_eq!(ctx.tweet.lamports, 9_000_000);
    assert_eq!(ctx.author, Signer { key: key(7), lamports: 3 });
}

#[test]
fn update_at_the_limits() {
    let account = stored(7, 5, "solana", "gm");
    let mut ctx = UpdateTweet { tweet: account, author: Signer { key: key(7), lamports: 0 } };
    assert_eq!(update_tweet(&mut ctx, text('t', 50), text('c', 280)), Ok(()));
    let before = ctx.clone();
    assert_eq!(update_tweet(&mut ctx, text('t', 51), "x".to_string()), Err(ErrorCode::TopicTooLong));
    assert_eq!(ctx, before);
    assert_eq!(
        update_tweet(&mut ctx, "x".to_string(), text('c', 281)),
        Err(ErrorCode::ContentTooLong)
    );
    assert_eq!(ctx, before);
    assert_eq!(ctx.tweet.record().expect("a record").topic, text('t', 50));
}

#[test]
fn update_by_a_stranger_is_refused() {
    let mut ctx =
        UpdateTweet { tweet: stored(7, 5, "solana", "gm"), author: Signer { key: key(8), lamports: 3 } };
    let before = ctx.clone();
    let result = update_tweet(&mut ctx, "anchor".to_string(), "gm friend".to_string());
    assert_eq!(result, Err(ErrorCode::Unauthorized));
    assert_eq!(ctx, before);
}

#[test]
fn a_stranger_with_long_texts_is_unauthorized() {
    let mut ctx =
        UpdateTweet { tweet: stored(7, 5, "solana", "gm"), author: Signer { key: key(8), lamports: 3 } };
    assert_eq!(update_tweet(&mut ctx, text('t', 51), text('c', 281)), Err(ErrorCode::Unauthorized));
}

#[test]
fn keys_that_differ_in_one_byte_differ() {
    let mut bytes = [7u8; 32];
    bytes[31] = 8;
    let near = Pubkey::new_from_array(bytes);
    assert_ne!(near, key(7));
    assert_eq!(near.to_bytes(), bytes);
    assert_eq!(key(7), Pubkey::new_from_array([7u8; 32]));
    let mut ctx =
        UpdateTweet { tweet: stored(7, 5, "solana", "gm"), author: Signer { key: near, lamports: 3 } };
    assert_eq!(
        update_tweet(&mut ctx, "anchor".to_string(), "gm".to_string()),
        Err(ErrorCode::Unauthorized)
    );
}

#[test]
fn update_of_an_empty_slot_is_refused() {
    let mut ctx =
        UpdateTweet { tweet: TweetAccount::empty(10), author: Signer { key: key(7), lamports: 3 } };
    let result = update_tweet(&mut ctx, "anchor".to_string(), "gm".to_string());
    assert_eq!(result, Err(ErrorCode::Unauthorized));
    assert!(ctx.tweet.record().is_none());
}

#[test]
fn delete_frees_the_slot_and_refunds_the_author() {
    let mut ctx =
        DeleteTweet { tweet: stored(7, 5, "solana", "gm"), author: Signer { key: key(7), lamports: 1_000 } };
    assert_eq!(delete_tweet(&mut ctx), Ok(()));
    assert!(ctx.tweet.record().is_none());
    assert_eq!(ctx.tweet, TweetAccount { lamports: 0, data: None });
    assert_eq!(ctx.author, Signer { key: key(7), lamports: 9_001_000 });
}

#[test]
fn delete_by_a_stranger_is_refused() {
    let mut ctx =
        DeleteTweet { tweet: stored(7, 5, "solana", "gm"), author: Signer { key: key(9), lamports: 1_000 } };
    let before = ctx.clone();
    assert_eq!(delete_tweet(&mut ctx), Err(ErrorCode::Unauthorized));
    assert_eq!(ctx, before);
    assert!(ctx.tweet.record().is_some());
}

#[test]
fn delete_is_final() {
    let mut ctx =
        DeleteTweet { tweet: stored(7, 5, "solana", "gm"), author: Signer { key: key(7), lamports: 1_000 } };
    assert_eq!(delete_tweet(&mut ctx), Ok(()));
    let after = ctx.clone();
    assert_eq!(delete_tweet(&mut ctx), Err(ErrorCode::Unauthorized));
    assert_eq!(ctx, after);
    let mut again = UpdateTweet { tweet: ctx.tweet, author: ctx.author };
    assert_eq!(update_tweet(&mut again, "a".to_string(), "b".to_string()), Err(ErrorCode::Unauthorized));
}

#[test]
fn delete_refunds_up_to_the_largest_balance() {
    let mut slot = stored(7, 5, "solana", "gm");
    slot.lamports = 5;
    let mut ctx = DeleteTweet { tweet: slot, author: Signer { key: key(7), lamports: u64::MAX - 5 } };
    assert_eq!(delete_tweet(&mut ctx), Ok(()));
    assert_eq!(ctx.author.lamports, u64::MAX);
    assert_eq!(ctx.tweet.lamports, 0);
}

#[test]
fn send_asks_the_clock() {
    let mut ctx = fresh(7);
    let before = ctx.clone();
    match send_tweet(&mut ctx, "solana".to_string(), "gm".to_string()) {
        Ok(()) => {
            let tweet = ctx.tweet.record().expect("a record");
            assert_eq!(tweet.author, key(7));
            assert_eq!(tweet.topic, "solana");
            assert_eq!(tweet.content, "gm");
            assert_eq!(ctx.author, before.author);
            assert_eq!(ctx.tweet.lamports, before.tweet.lamports);
        }
        Err(SendTweetError::ClockUnavailable) => assert_eq!(ctx, before),
        Err(SendTweetError::Rejected(code)) => panic!("valid texts rejected: {:?}", code),
    }
}

#[test]
fn send_with_long_topic_never_stores() {
    let mut ctx = fresh(7);
    let before = ctx.clone();
    let result = send_tweet(&mut ctx, text('t', 51), "gm".to_string());
    assert!(matches!(
        result,
        Err(SendTweetError::ClockUnavailable) | Err(SendTweetError::Rejected(ErrorCode::TopicTooLong))
    ));
    assert_eq!(ctx, before);
}

#[test]
fn layout_adds_up() {
    assert_eq!(Tweet::LEN, 1376);
    assert_eq!(
        Tweet::LEN,
        DISCRIMINATOR_LENGTH
            + PUBLIC_KEY_LENGTH
            + TIMESTAMP_LENGTH
            + STRING_LENGTH_PREFIX
            + MAX_TOPIC_LENGTH
            + STRING_LENGTH_PREFIX
            + MAX_CONTENT_LENGTH
    );
    assert_eq!(MAX_TOPIC_LENGTH, 200);
    assert_eq!(MAX_CONTENT_LENGTH, 1120);
    assert_eq!(MAX_TOPIC_CHARS, 50);
    assert_eq!(MAX_CONTENT_CHARS, 280);
}

#[test]
fn error_messages() {
    assert_eq!(
        ErrorCode::TopicTooLong.message(),
        "The provided topic should be 50 characters long maximum."
    );
    assert_eq!(
        ErrorCode::ContentTooLong.message(),
        "The provided content should be 280 characters long maximum."
    );
    assert_eq!(ErrorCode::Unauthorized.message(), "You have to be the author to update a tweet.");
}
