use twitter::address::Address;
use twitter::errors::{TipError, TwitterError};
use twitter::states::{
    check_comment, check_tweet, fits, Comment, Reaction, ReactionType, Record, Tweet,
    COMMENT_LENGTH, CONTENT_LENGTH, TOPIC_LENGTH,
};

fn sample() -> Tweet {
    Tweet::new(Address::new([1u8; 32]), "solana".to_string(), "hello".to_string(), 1_700_000_000, 254)
}

#[test]
fn limits_are_fifty_two_hundred_eighty_and_fifty() {
    assert_eq!(TOPIC_LENGTH, 50);
    assert_eq!(CONTENT_LENGTH, 280);
    assert_eq!(COMMENT_LENGTH, 50);
}

#[test]
fn a_new_tweet_has_no_likes_dislikes_or_tips() {
    let tweet = sample();
    assert_eq!(tweet.tweet_author, Address::new([1u8; 32]));
    assert_eq!(tweet.topic, "solana");
    assert_eq!(tweet.content, "hello");
    assert_eq!(tweet.likes, 0);
    assert_eq!(tweet.dislikes, 0);
    assert_eq!(tweet.total_tips, 0);
    assert_eq!(tweet.timestamp, 1_700_000_000);
    assert_eq!(tweet.bump, 254);
}

#[test]
fn fits_counts_bytes_not_characters() {
    assert!(fits("", 0));
    assert!(fits("abc", 3));
    assert!(!fits("abcd", 3));
    assert!(fits("é", 2));
    assert!(!fits("é", 1));
    assert!(!fits(&"é".repeat(26), TOPIC_LENGTH));
    assert!(fits(&"é".repeat(25), TOPIC_LENGTH));
}

#[test]
fn increment_likes_adds_one() {
    let mut tweet = sample();
    assert_eq!(tweet.increment_likes(), Ok(()));
    assert_eq!(tweet.likes, 1);
    assert_eq!(tweet.dislikes, 0);
    assert_eq!(tweet.increment_likes(), Ok(()));
    assert_eq!(tweet.likes, 2);
}

#[test]
fn increment_likes_stops_at_the_maximum() {
    let mut tweet = sample();
    tweet.likes = u64::MAX - 1;
    assert_eq!(tweet.increment_likes(), Ok(()));
    assert_eq!(tweet.likes, u64::MAX);
    let before = tweet.clone();
    assert_eq!(tweet.increment_likes(), Err(TwitterError::MaxLikesReached));
    assert_eq!(tweet, before);
}

#[test]
fn increment_dislikes_stops_at_the_maximum() {
    let mut tweet = sample();
    assert_eq!(tweet.increment_dislikes(), Ok(()));
    assert_eq!(tweet.dislikes, 1);
    assert_eq!(tweet.likes, 0);
    tweet.dislikes = u64::MAX;
    let before = tweet.clone();
    assert_eq!(tweet.increment_dislikes(), Err(TwitterError::MaxDislikesReached));
    assert_eq!(tweet, before);
}

#[test]
fn decrement_likes_stops_at_zero() {
    let mut tweet = sample();
    tweet.likes = 2;
    assert_eq!(tweet.decrement_likes(), Ok(()));
    assert_eq!(tweet.likes, 1);
    assert_eq!(tweet.decrement_likes(), Ok(()));
    assert_eq!(tweet.likes, 0);
    let before = tweet.clone();
    assert_eq!(tweet.decrement_likes(), Err(TwitterError::MinLikesReached));
    assert_eq!(tweet, before);
}

#[test]
fn decrement_dislikes_stops_at_zero() {
    let mut tweet = sample();
    tweet.dislikes = 1;
    assert_eq!(tweet.decrement_dislikes(), Ok(()));
    assert_eq!(tweet.dislikes, 0);
    let before = tweet.clone();
    assert_eq!(tweet.decrement_dislikes(), Err(TwitterError::MinDislikesReached));
    assert_eq!(tweet, before);
}

#[test]
fn counters_leave_the_rest_of_the_tweet_alone() {
    let mut tweet = sample();
    tweet.total_tips = 77;
    tweet.increment_likes().unwrap();
    tweet.increment_dislikes().unwrap();
    tweet.decrement_likes().unwrap();
    let mut expected = sample();
    expected.total_tips = 77;
    expected.dislikes = 1;
    assert_eq!(tweet, expected);
}

#[test]
fn clones_equal_what_they_copy() {
    let tweet = sample();
    assert_eq!(tweet.clone(), tweet);
    let comment = Comment {
        comment_author: Address::new([2u8; 32]),
        parent_tweet: Address::new([3u8; 32]),
        content: "first".to_string(),
        bump: 255,
    };
    assert_eq!(comment.clone(), comment);
    let reaction = Reaction {
        reaction_author: Address::new([2u8; 32]),
        parent_tweet: Address::new([3u8; 32]),
        reaction: ReactionType::Dislike,
        bump: 253,
    };
    assert_eq!(Record::Reaction(reaction).clone(), Record::Reaction(reaction));
    assert_eq!(Record::Tweet(tweet.clone()).clone(), Record::Tweet(tweet));
    assert_eq!(Record::Comment(comment.clone()).clone(), Record::Comment(comment));
}

#[test]
fn reactions_compare_field_by_field() {
    let reaction = Reaction {
        reaction_author: Address::new([2u8; 32]),
        parent_tweet: Address::new([3u8; 32]),
        reaction: ReactionType::Like,
        bump: 253,
    };
    assert_eq!(reaction, reaction);
    assert_ne!(reaction, Reaction { reaction: ReactionType::Dislike, ..reaction });
    assert_ne!(reaction, Reaction { bump: 252, ..reaction });
    assert_ne!(reaction, Reaction { parent_tweet: Address::new([4u8; 32]), ..reaction });
    assert_ne!(reaction, Reaction { reaction_author: Address::new([4u8; 32]), ..reaction });
}

#[test]
fn check_tweet_looks_at_the_topic_first() {
    assert_eq!(check_tweet("solana", "hello"), Ok(()));
    assert_eq!(check_tweet("", ""), Ok(()));
    assert_eq!(check_tweet(&"t".repeat(50), &"c".repeat(280)), Ok(()));
    assert_eq!(check_tweet(&"t".repeat(51), "hello"), Err(TwitterError::TopicTooLong));
    assert_eq!(check_tweet("solana", &"c".repeat(281)), Err(TwitterError::ContentTooLong));
    assert_eq!(check_tweet(&"t".repeat(51), &"c".repeat(281)), Err(TwitterError::TopicTooLong));
    assert_eq!(check_tweet(&"é".repeat(26), "hello"), Err(TwitterError::TopicTooLong));
    assert_eq!(check_tweet("solana", &"é".repeat(140)), Ok(()));
    assert_eq!(check_tweet("solana", &"é".repeat(141)), Err(TwitterError::ContentTooLong));
}

#[test]
fn check_comment_allows_fifty_bytes() {
    assert_eq!(check_comment(""), Ok(()));
    assert_eq!(check_comment(&"c".repeat(50)), Ok(()));
    assert_eq!(check_comment(&"c".repeat(51)), Err(TwitterError::CommentTooLong));
    assert_eq!(check_comment(&"é".repeat(25)), Ok(()));
    assert_eq!(check_comment(&"é".repeat(26)), Err(TwitterError::CommentTooLong));
}

#[test]
fn react_counts_on_the_counter_of_the_kind() {
    let mut tweet = sample();
    assert_eq!(tweet.react(ReactionType::Like), Ok(()));
    assert_eq!(tweet.react(ReactionType::Dislike), Ok(()));
    assert_eq!(tweet.react(ReactionType::Dislike), Ok(()));
    assert_eq!((tweet.likes, tweet.dislikes), (1, 2));
    tweet.likes = u64::MAX;
    assert_eq!(tweet.react(ReactionType::Like), Err(TwitterError::MaxLikesReached));
    assert_eq!(tweet.react(ReactionType::Dislike), Ok(()));
    assert_eq!((tweet.likes, tweet.dislikes), (u64::MAX, 3));
    tweet.dislikes = u64::MAX;
    assert_eq!(tweet.react(ReactionType::Dislike), Err(TwitterError::MaxDislikesReached));
    assert_eq!((tweet.likes, tweet.dislikes), (u64::MAX, u64::MAX));
}

#[test]
fn unreact_takes_from_the_counter_of_the_kind() {
    let mut tweet = sample();
    tweet.likes = 1;
    tweet.dislikes = 1;
    assert_eq!(tweet.unreact(ReactionType::Like), Ok(()));
    assert_eq!((tweet.likes, tweet.dislikes), (0, 1));
    assert_eq!(tweet.unreact(ReactionType::Like), Err(TwitterError::MinLikesReached));
    assert_eq!(tweet.unreact(ReactionType::Dislike), Ok(()));
    assert_eq!(tweet.unreact(ReactionType::Dislike), Err(TwitterError::MinDislikesReached));
    assert_eq!((tweet.likes, tweet.dislikes), (0, 0));
}

#[test]
fn record_tip_adds_the_whole_amount() {
    let mut tweet = sample();
    assert_eq!(tweet.record_tip(1000), Ok(()));
    assert_eq!(tweet.record_tip(1), Ok(()));
    assert_eq!(tweet.total_tips, 1001);
    assert_eq!(tweet.record_tip(u64::MAX - 1001), Ok(()));
    assert_eq!(tweet.total_tips, u64::MAX);
    let before = tweet.clone();
    assert_eq!(tweet.record_tip(1), Err(TipError::Overflow));
    assert_eq!(tweet, before);
    assert_eq!(tweet.record_tip(0), Ok(()));
    assert_eq!((tweet.likes, tweet.dislikes), (0, 0));
}
