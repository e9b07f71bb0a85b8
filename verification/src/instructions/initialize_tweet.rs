//! Opening a tweet.

use crate::address::{tweet_address, tweet_address_spec, Address};
use crate::errors::{Error, LedgerError, TwitterError};
use crate::ledger::{follows, lemma_put_other, reactions_to, Ledger, LedgerView, Signer};
use crate::states::{
    byte_len, check_tweet, ReactionType, Record, Tweet, CONTENT_LENGTH, TOPIC_LENGTH,
};
use vstd::prelude::*;

verus! {

/// The accounts of a new tweet: who writes it, and the time at which it is written.
#[derive(Clone, Copy, Debug)]
pub struct InitializeTweet {
    pub tweet_authority: Signer,
    pub unix_timestamp: i64,
}

/// The ledger with the new tweet, or why the tweet is refused, where `found`
/// is the address and bump that the tweet was given.
pub open spec fn initialize_tweet_at_spec(
    ledger: LedgerView,
    ctx: InitializeTweet,
    topic: String,
    content: String,
    found: Option<(Address, u8)>,
) -> Result<LedgerView, Error> {
    if byte_len(topic@) > TOPIC_LENGTH {
        Err(Error::Twitter(TwitterError::TopicTooLong))
    } else if byte_len(content@) > CONTENT_LENGTH {
        Err(Error::Twitter(TwitterError::ContentTooLong))
    } else {
        match found {
            None => Err(Error::Ledger(LedgerError::NoViableAddress)),
            Some((key, bump)) => if ledger.records.dom().contains(key) {
                Err(Error::Ledger(LedgerError::AddressCollision))
            } else {
                Ok(
                    ledger.with_record(
                        key,
                        Record::Tweet(
                            Tweet {
                                tweet_author: ctx.tweet_authority.address(),
                                topic,
                                content,
                                likes: 0,
                                dislikes: 0,
                                total_tips: 0,
                                timestamp: ctx.unix_timestamp,
                                bump,
                            },
                        ),
                    ),
                )
            },
        }
    }
}

/// The ledger with the new tweet, or why the tweet is refused.
pub open spec fn initialize_tweet_spec(
    ledger: LedgerView,
    ctx: InitializeTweet,
    topic: String,
    content: String,
) -> Result<LedgerView, Error> {
    initialize_tweet_at_spec(
        ledger,
        ctx,
        topic,
        content,
        tweet_address_spec(topic@, ctx.tweet_authority.address()),
    )
}

/// A tweet that is opened in a sound ledger leaves the ledger sound: no
/// reaction is about the new tweet yet, and it counts none.
pub proof fn lemma_initialize_tweet_keeps_sound(
    ledger: LedgerView,
    ctx: InitializeTweet,
    topic: String,
    content: String,
    found: Option<(Address, u8)>,
)
    requires
        ledger.sound(),
        initialize_tweet_at_spec(ledger, ctx, topic, content, found) is Ok,
    ensures
        initialize_tweet_at_spec(ledger, ctx, topic, content, found)->Ok_0.sound(),
{
    let after = initialize_tweet_at_spec(ledger, ctx, topic, content, found)->Ok_0;
    let key = found->Some_0.0;
    assert(reactions_to(ledger.records, key, ReactionType::Like) =~= Set::empty());
    assert(reactions_to(ledger.records, key, ReactionType::Dislike) =~= Set::empty());
    assert forall|at: Address| #[trigger] after.records.dom().contains(at) implies after.well_kept(
        at,
    ) by {
        lemma_put_other(ledger.records, key, after.records[key], at, ReactionType::Like);
        lemma_put_other(ledger.records, key, after.records[key], at, ReactionType::Dislike);
        if at != key {
            assert(ledger.records.dom().contains(at));
        }
    }
}

/// Opens a tweet of the signer on `topic` at the address `found`, which is
/// to be the one that `tweet_address` derives for the topic and the signer;
/// or refuses, and leaves the ledger as it was.
pub fn initialize_tweet_at(
    ledger: &mut Ledger,
    ctx: InitializeTweet,
    topic: String,
    content: String,
    found: Option<(Address, u8)>,
) -> (done: Result<(), Error>)
    requires
        old(ledger).indexed(),
    ensures
        final(ledger).indexed(),
        old(ledger).wf() ==> final(ledger).wf(),
        follows(
            initialize_tweet_at_spec(old(ledger)@, ctx, topic, content, found),
            old(ledger)@,
            final(ledger)@,
            done,
        ),
{
    match check_tweet(topic.as_str(), content.as_str()) {
        Ok(()) => {},
        Err(error) => {
            return Err(Error::Twitter(error));
        },
    }
    let (key, bump) = match found {
        Some(found) => found,
        None => {
            return Err(Error::Ledger(LedgerError::NoViableAddress));
        },
    };
    if ledger.is_occupied(&key) {
        return Err(Error::Ledger(LedgerError::AddressCollision));
    }
    let tweet = Tweet::new(ctx.tweet_authority.key(), topic, content, ctx.unix_timestamp, bump);
    ledger.put_record(key, Record::Tweet(tweet));
    proof {
        if old(ledger)@.sound() {
            lemma_initialize_tweet_keeps_sound(old(ledger)@, ctx, topic, content, found);
        }
    }
    Ok(())
}

/// Opens a tweet of the signer on `topic`, at the address that the topic and
/// the signer derive; or refuses, and leaves the ledger as it was.
pub fn initialize_tweet(ledger: &mut Ledger, ctx: InitializeTweet, topic: String, content: String) -> (done:
    Result<(), Error>)
    requires
        old(ledger).indexed(),
    ensures
        final(ledger).indexed(),
        old(ledger).wf() ==> final(ledger).wf(),
        old(ledger)@.addressed() ==> final(ledger)@.addressed(),
        follows(
            initialize_tweet_spec(old(ledger)@, ctx, topic, content),
            old(ledger)@,
            final(ledger)@,
            done,
        ),
{
    let found = tweet_address(topic.as_str(), &ctx.tweet_authority.key());
    initialize_tweet_at(ledger, ctx, topic, content, found)
}

} // verus!
