//! The records that the ledger holds, and the counters of a tweet.

use crate::address::Address;
use crate::errors::{TipError, TwitterError};
use vstd::prelude::*;
use vstd::utf8::encode_utf8;

verus! {

/// Longest topic of a tweet, in bytes.
pub const TOPIC_LENGTH: usize = 50;

/// Longest content of a tweet, in bytes.
pub const CONTENT_LENGTH: usize = 280;

/// Longest comment, in bytes.
pub const COMMENT_LENGTH: usize = 50;

/// Number of bytes that a text takes.
pub open spec fn byte_len(text: Seq<char>) -> nat {
    encode_utf8(text).len()
}

/// Whether a text takes at most `limit` bytes.
pub fn fits(text: &str, limit: usize) -> (within: bool)
    ensures
        within == (byte_len(text@) <= limit),
{
    text.as_bytes().len() <= limit
}

/// Whether topic and content are within the limits of a tweet, and which of
/// them is not.
pub open spec fn check_tweet_spec(topic: Seq<char>, content: Seq<char>) -> Result<(), TwitterError> {
    if byte_len(topic) > TOPIC_LENGTH {
        Err(TwitterError::TopicTooLong)
    } else if byte_len(content) > CONTENT_LENGTH {
        Err(TwitterError::ContentTooLong)
    } else {
        Ok(())
    }
}

/// Checks topic and content against the limits of a tweet, the topic first.
pub fn check_tweet(topic: &str, content: &str) -> (checked: Result<(), TwitterError>)
    ensures
        checked == check_tweet_spec(topic@, content@),
{
    if !fits(topic, TOPIC_LENGTH) {
        Err(TwitterError::TopicTooLong)
    } else if !fits(content, CONTENT_LENGTH) {
        Err(TwitterError::ContentTooLong)
    } else {
        Ok(())
    }
}

/// Checks the text of a comment against its limit.
pub fn check_comment(content: &str) -> (checked: Result<(), TwitterError>)
    ensures
        byte_len(content@) <= COMMENT_LENGTH ==> checked is Ok,
        byte_len(content@) > COMMENT_LENGTH ==> checked == Err::<(), TwitterError>(
            TwitterError::CommentTooLong,
        ),
{
    if fits(content, COMMENT_LENGTH) {
        Ok(())
    } else {
        Err(TwitterError::CommentTooLong)
    }
}

/// What a reaction says of a tweet.
#[derive(Clone, Copy, Debug, PartialEq, Eq, Structural)]
pub enum ReactionType {
    Like,
    Dislike,
}

/// A post. Its author, topic, content, time stamp and bump never change;
/// its counters do.
#[derive(Debug)]
pub struct Tweet {
    pub tweet_author: Address,
    pub topic: String,
    pub content: String,
    pub likes: u64,
    pub dislikes: u64,
    pub total_tips: u64,
    pub timestamp: i64,
    pub bump: u8,
}

/// The one reaction of an author to a tweet.
#[derive(Clone, Copy, Debug)]
pub struct Reaction {
    pub reaction_author: Address,
    pub parent_tweet: Address,
    pub reaction: ReactionType,
    pub bump: u8,
}

/// A comment of an author on a tweet.
#[derive(Debug)]
pub struct Comment {
    pub comment_author: Address,
    pub parent_tweet: Address,
    pub content: String,
    pub bump: u8,
}

/// What lives at an address of the ledger.
#[derive(Debug)]
pub enum Record {
    Tweet(Tweet),
    Comment(Comment),
    Reaction(Reaction),
}

impl PartialEq for Reaction {
    fn eq(&self, other: &Self) -> (same: bool) {
        self.reaction_author == other.reaction_author && self.parent_tweet == other.parent_tweet
            && self.reaction == other.reaction && self.bump == other.bump
    }
}

impl Eq for Reaction {

}

impl vstd::std_specs::cmp::PartialEqSpecImpl for Reaction {
    open spec fn obeys_eq_spec() -> bool {
        true
    }

    open spec fn eq_spec(&self, other: &Self) -> bool {
        *self == *other
    }
}

impl PartialEq for Tweet {
    fn eq(&self, other: &Self) -> (same: bool) {
        self.tweet_author == other.tweet_author && self.topic == other.topic && self.content
            == other.content && self.likes == other.likes && self.dislikes == other.dislikes
            && self.total_tips == other.total_tips && self.timestamp == other.timestamp
            && self.bump == other.bump
    }
}

impl Eq for Tweet {

}

impl vstd::std_specs::cmp::PartialEqSpecImpl for Tweet {
    open spec fn obeys_eq_spec() -> bool {
        true
    }

    open spec fn eq_spec(&self, other: &Self) -> bool {
        self.alike(*other)
    }
}

impl PartialEq for Comment {
    fn eq(&self, other: &Self) -> (same: bool) {
        self.comment_author == other.comment_author && self.parent_tweet == other.parent_tweet
            && self.content == other.content && self.bump == other.bump
    }
}

impl Eq for Comment {

}

impl vstd::std_specs::cmp::PartialEqSpecImpl for Comment {
    open spec fn obeys_eq_spec() -> bool {
        true
    }

    open spec fn eq_spec(&self, other: &Self) -> bool {
        self.alike(*other)
    }
}

impl PartialEq for Record {
    fn eq(&self, other: &Self) -> (same: bool) {
        match (self, other) {
            (Record::Tweet(one), Record::Tweet(two)) => one == two,
            (Record::Comment(one), Record::Comment(two)) => one == two,
            (Record::Reaction(one), Record::Reaction(two)) => one == two,
            _ => false,
        }
    }
}

impl Eq for Record {

}

impl vstd::std_specs::cmp::PartialEqSpecImpl for Record {
    open spec fn obeys_eq_spec() -> bool {
        true
    }

    open spec fn eq_spec(&self, other: &Self) -> bool {
        self.alike(*other)
    }
}

impl Record {
    /// Two records are alike when they are of one kind and hold the same.
    pub open spec fn alike(self, other: Record) -> bool {
        match (self, other) {
            (Record::Tweet(one), Record::Tweet(two)) => one.alike(two),
            (Record::Comment(one), Record::Comment(two)) => one.alike(two),
            (Record::Reaction(one), Record::Reaction(two)) => one == two,
            _ => false,
        }
    }
}

impl Clone for Tweet {
    fn clone(&self) -> (copy: Tweet)
        ensures
            copy == *self,
    {
        Tweet {
            tweet_author: self.tweet_author,
            topic: self.topic.clone(),
            content: self.content.clone(),
            likes: self.likes,
            dislikes: self.dislikes,
            total_tips: self.total_tips,
            timestamp: self.timestamp,
            bump: self.bump,
        }
    }
}

impl Clone for Comment {
    fn clone(&self) -> (copy: Comment)
        ensures
            copy == *self,
    {
        Comment {
            comment_author: self.comment_author,
            parent_tweet: self.parent_tweet,
            content: self.content.clone(),
            bump: self.bump,
        }
    }
}

impl Clone for Record {
    fn clone(&self) -> (copy: Record)
        ensures
            copy == *self,
    {
        match self {
            Record::Tweet(tweet) => Record::Tweet(tweet.clone()),
            Record::Comment(comment) => Record::Comment(comment.clone()),
            Record::Reaction(reaction) => Record::Reaction(*reaction),
        }
    }
}

impl Tweet {
    /// Two tweets are alike when their texts read the same and their other
    /// fields are equal.
    pub open spec fn alike(self, other: Tweet) -> bool {
        self.tweet_author == other.tweet_author && self.topic@ == other.topic@ && self.content@
            == other.content@ && self.likes == other.likes && self.dislikes == other.dislikes
            && self.total_tips == other.total_tips && self.timestamp == other.timestamp
            && self.bump == other.bump
    }

    /// Topic and content are within their limits.
    pub open spec fn within_limits(&self) -> bool {
        byte_len(self.topic@) <= TOPIC_LENGTH && byte_len(self.content@) <= CONTENT_LENGTH
    }

    /// The tweet with one more like.
    pub open spec fn liked(self) -> Tweet {
        Tweet { likes: (self.likes + 1) as u64, ..self }
    }

    /// The tweet with one more dislike.
    pub open spec fn disliked(self) -> Tweet {
        Tweet { dislikes: (self.dislikes + 1) as u64, ..self }
    }

    /// The tweet with one like less.
    pub open spec fn unliked(self) -> Tweet {
        Tweet { likes: (self.likes - 1) as u64, ..self }
    }

    /// The tweet with one dislike less.
    pub open spec fn undisliked(self) -> Tweet {
        Tweet { dislikes: (self.dislikes - 1) as u64, ..self }
    }

    /// The tweet after a tip of `amount`.
    pub open spec fn tipped(self, amount: u64) -> Tweet {
        Tweet { total_tips: (self.total_tips + amount) as u64, ..self }
    }

    /// A tweet as it is when it is made: no likes, no dislikes, no tips.
    pub fn new(
        tweet_author: Address,
        topic: String,
        content: String,
        timestamp: i64,
        bump: u8,
    ) -> (tweet: Tweet)
        ensures
            tweet == (Tweet {
                tweet_author,
                topic,
                content,
                likes: 0,
                dislikes: 0,
                total_tips: 0,
                timestamp,
                bump,
            }),
    {
        Tweet { tweet_author, topic, content, likes: 0, dislikes: 0, total_tips: 0, timestamp, bump }
    }

    /// Counts one more like, unless the counter is at its maximum.
    pub fn increment_likes(&mut self) -> (done: Result<(), TwitterError>)
        ensures
            old(self).likes < u64::MAX ==> done is Ok && *final(self) == old(self).liked(),
            old(self).likes == u64::MAX ==> done == Err::<(), TwitterError>(
                TwitterError::MaxLikesReached,
            ) && *final(self) == *old(self),
    {
        match self.likes.checked_add(1) {
            Some(likes) => {
                self.likes = likes;
                Ok(())
            },
            None => Err(TwitterError::MaxLikesReached),
        }
    }

    /// Counts one more dislike, unless the counter is at its maximum.
    pub fn increment_dislikes(&mut self) -> (done: Result<(), TwitterError>)
        ensures
            old(self).dislikes < u64::MAX ==> done is Ok && *final(self) == old(self).disliked(),
            old(self).dislikes == u64::MAX ==> done == Err::<(), TwitterError>(
                TwitterError::MaxDislikesReached,
            ) && *final(self) == *old(self),
    {
        match self.dislikes.checked_add(1) {
            Some(dislikes) => {
                self.dislikes = dislikes;
                Ok(())
            },
            None => Err(TwitterError::MaxDislikesReached),
        }
    }

    /// Takes one like back, unless there is none.
    pub fn decrement_likes(&mut self) -> (done: Result<(), TwitterError>)
        ensures
            old(self).likes > 0 ==> done is Ok && *final(self) == old(self).unliked(),
            old(self).likes == 0 ==> done == Err::<(), TwitterError>(
                TwitterError::MinLikesReached,
            ) && *final(self) == *old(self),
    {
        if self.likes > 0 {
            self.likes = self.likes - 1;
            Ok(())
        } else {
            Err(TwitterError::MinLikesReached)
        }
    }

    /// Takes one dislike back, unless there is none.
    pub fn decrement_dislikes(&mut self) -> (done: Result<(), TwitterError>)
        ensures
            old(self).dislikes > 0 ==> done is Ok && *final(self) == old(self).undisliked(),
            old(self).dislikes == 0 ==> done == Err::<(), TwitterError>(
                TwitterError::MinDislikesReached,
            ) && *final(self) == *old(self),
    {
        if self.dislikes > 0 {
            self.dislikes = self.dislikes - 1;
            Ok(())
        } else {
            Err(TwitterError::MinDislikesReached)
        }
    }
}

impl Tweet {
    /// The tweet with one more reaction of the kind `reaction`.
    pub open spec fn reacted(self, reaction: ReactionType) -> Tweet {
        match reaction {
            ReactionType::Like => self.liked(),
            ReactionType::Dislike => self.disliked(),
        }
    }

    /// The tweet with one reaction less of the kind `reaction`.
    pub open spec fn unreacted(self, reaction: ReactionType) -> Tweet {
        match reaction {
            ReactionType::Like => self.unliked(),
            ReactionType::Dislike => self.undisliked(),
        }
    }

    /// How many reactions of the kind `reaction` the tweet counts.
    pub open spec fn counted(self, reaction: ReactionType) -> u64 {
        match reaction {
            ReactionType::Like => self.likes,
            ReactionType::Dislike => self.dislikes,
        }
    }

    /// What refuses one more reaction of the kind `reaction`.
    pub open spec fn at_maximum(reaction: ReactionType) -> TwitterError {
        match reaction {
            ReactionType::Like => TwitterError::MaxLikesReached,
            ReactionType::Dislike => TwitterError::MaxDislikesReached,
        }
    }

    /// What refuses one reaction less of the kind `reaction`.
    pub open spec fn at_minimum(reaction: ReactionType) -> TwitterError {
        match reaction {
            ReactionType::Like => TwitterError::MinLikesReached,
            ReactionType::Dislike => TwitterError::MinDislikesReached,
        }
    }

    /// Counts a reaction, on the counter of its kind.
    pub fn react(&mut self, reaction: ReactionType) -> (done: Result<(), TwitterError>)
        ensures
            old(self).counted(reaction) < u64::MAX ==> done is Ok && *final(self) == old(
                self,
            ).reacted(reaction),
            old(self).counted(reaction) == u64::MAX ==> done == Err::<(), TwitterError>(
                Tweet::at_maximum(reaction),
            ) && *final(self) == *old(self),
    {
        match reaction {
            ReactionType::Like => self.increment_likes(),
            ReactionType::Dislike => self.increment_dislikes(),
        }
    }

    /// Takes a reaction back, from the counter of its kind.
    pub fn unreact(&mut self, reaction: ReactionType) -> (done: Result<(), TwitterError>)
        ensures
            old(self).counted(reaction) > 0 ==> done is Ok && *final(self) == old(self).unreacted(
                reaction,
            ),
            old(self).counted(reaction) == 0 ==> done == Err::<(), TwitterError>(
                Tweet::at_minimum(reaction),
            ) && *final(self) == *old(self),
    {
        match reaction {
            ReactionType::Like => self.decrement_likes(),
            ReactionType::Dislike => self.decrement_dislikes(),
        }
    }

    /// Adds the whole of a tip to the tips of the tweet, unless the sum is
    /// more than the counter holds.
    pub fn record_tip(&mut self, amount: u64) -> (done: Result<(), TipError>)
        ensures
            old(self).total_tips + amount <= u64::MAX ==> done is Ok && *final(self) == old(
                self,
            ).tipped(amount),
            old(self).total_tips + amount > u64::MAX ==> done == Err::<(), TipError>(
                TipError::Overflow,
            ) && *final(self) == *old(self),
    {
        match self.total_tips.checked_add(amount) {
            Some(total_tips) => {
                self.total_tips = total_tips;
                Ok(())
            },
            None => Err(TipError::Overflow),
        }
    }
}

impl Comment {
    /// Two comments are alike when their texts read the same and their other
    /// fields are equal.
    pub open spec fn alike(self, other: Comment) -> bool {
        self.comment_author == other.comment_author && self.parent_tweet == other.parent_tweet
            && self.content@ == other.content@ && self.bump == other.bump
    }

    /// The text is within its limit.
    pub open spec fn within_limits(&self) -> bool {
        byte_len(self.content@) <= COMMENT_LENGTH
    }
}

} // verus!
