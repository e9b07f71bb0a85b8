//! Reacting to a tweet: the reaction is kept as a record of its own, and the
//! tweet counts it.

use crate::address::{reaction_address, reaction_address_spec, Address};
use crate::errors::{Error, LedgerError, TwitterError};
use crate::ledger::{follows, lemma_put_other, lemma_put_reaction, Ledger, LedgerView, Signer};
use crate::states::{Reaction, ReactionType, Record, Tweet};
use vstd::prelude::*;

verus! {

/// The accounts of a new reaction: who reacts, and to which tweet.
#[derive(Clone, Copy, Debug)]
pub struct AddReactionContext {
    pub reaction_author: Signer,
    pub tweet: Address,
}

/// The ledger after the reaction, or why the reaction is refused, where
/// `found` is the address and bump that the reaction was given.
pub open spec fn add_reaction_at_spec(
    ledger: LedgerView,
    ctx: AddReactionContext,
    reaction: ReactionType,
    found: Option<(Address, u8)>,
) -> Result<LedgerView, Error> {
    if !ledger.holds_tweet(ctx.tweet) {
        Err(Error::Ledger(LedgerError::RecordNotFound))
    } else {
        match found {
            None => Err(Error::Ledger(LedgerError::NoViableAddress)),
            Some((key, bump)) => {
                let tweet = ledger.tweet(ctx.tweet);
                let record = Record::Reaction(
                    Reaction {
                        reaction_author: ctx.reaction_author.address(),
                        parent_tweet: ctx.tweet,
                        reaction,
                        bump,
                    },
                );
                if ledger.records.dom().contains(key) {
                    Err(Error::Ledger(LedgerError::AddressCollision))
                } else {
                    match reaction {
                        ReactionType::Like => if tweet.likes == u64::MAX {
                            Err(Error::Twitter(TwitterError::MaxLikesReached))
                        } else {
                            Ok(
                                ledger.with_record(
                                    ctx.tweet,
                                    Record::Tweet(tweet.liked()),
                                ).with_record(key, record),
                            )
                        },
                        ReactionType::Dislike => if tweet.dislikes == u64::MAX {
                            Err(Error::Twitter(TwitterError::MaxDislikesReached))
                        } else {
                            Ok(
                                ledger.with_record(
                                    ctx.tweet,
                                    Record::Tweet(tweet.disliked()),
                                ).with_record(key, record),
                            )
                        },
                    }
                }
            },
        }
    }
}

/// The ledger after the reaction, or why the reaction is refused.
pub open spec fn add_reaction_spec(
    ledger: LedgerView,
    ctx: AddReactionContext,
    reaction: ReactionType,
) -> Result<LedgerView, Error> {
    add_reaction_at_spec(
        ledger,
        ctx,
        reaction,
        reaction_address_spec(ctx.reaction_author.address(), ctx.tweet),
    )
}

/// A reaction that is recorded in a sound ledger leaves the ledger sound:
/// the tweet has one reaction more of that kind, and counts one more.
pub proof fn lemma_add_reaction_keeps_sound(
    ledger: LedgerView,
    ctx: AddReactionContext,
    reaction: ReactionType,
    found: Option<(Address, u8)>,
)
    requires
        ledger.sound(),
        add_reaction_at_spec(ledger, ctx, reaction, found) is Ok,
    ensures
        add_reaction_at_spec(ledger, ctx, reaction, found)->Ok_0.sound(),
{
    let after = add_reaction_at_spec(ledger, ctx, reaction, found)->Ok_0;
    let key = found->Some_0.0;
    let kept = after.records[key]->Reaction_0;
    let counted = ledger.records.insert(ctx.tweet, after.records[ctx.tweet]);
    assert(after.records == counted.insert(key, Record::Reaction(kept)));
    assert(ledger.records.dom().contains(ctx.tweet));
    assert forall|at: Address| #[trigger] after.records.dom().contains(at) implies after.well_kept(
        at,
    ) by {
        lemma_put_other(ledger.records, ctx.tweet, after.records[ctx.tweet], at, ReactionType::Like);
        lemma_put_other(
            ledger.records,
            ctx.tweet,
            after.records[ctx.tweet],
            at,
            ReactionType::Dislike,
        );
        lemma_put_reaction(counted, key, kept, at, ReactionType::Like);
        lemma_put_reaction(counted, key, kept, at, ReactionType::Dislike);
        if at != key {
            assert(ledger.records.dom().contains(at));
        }
    }
}

/// Records the signer's reaction to a tweet at the address `found`, which
/// is to be the one that `reaction_address` derives for the signer and the
/// tweet, and counts the reaction on the tweet; or refuses, and leaves the
/// ledger as it was.
pub fn add_reaction_at(
    ledger: &mut Ledger,
    ctx: AddReactionContext,
    reaction: ReactionType,
    found: Option<(Address, u8)>,
) -> (done: Result<(), Error>)
    requires
        old(ledger).indexed(),
    ensures
        final(ledger).indexed(),
        old(ledger).wf() ==> final(ledger).wf(),
        follows(
            add_reaction_at_spec(old(ledger)@, ctx, reaction, found),
            old(ledger)@,
            final(ledger)@,
            done,
        ),
{
    let mut tweet: Tweet = match ledger.tweet(&ctx.tweet) {
        Some(tweet) => tweet.clone(),
        None => {
            return Err(Error::Ledger(LedgerError::RecordNotFound));
        },
    };
    let (key, bump) = match found {
        Some(found) => found,
        None => {
            return Err(Error::Ledger(LedgerError::NoViableAddress));
        },
    };
    if ledger.is_occupied(&key) {
        return Err(Error::Ledger(LedgerError::AddressCollision));
    }
    match tweet.react(reaction) {
        Ok(()) => {},
        Err(error) => {
            return Err(Error::Twitter(error));
        },
    }
    let tweet_reaction = Reaction {
        reaction_author: ctx.reaction_author.key(),
        parent_tweet: ctx.tweet,
        reaction,
        bump,
    };
    ledger.put_record(ctx.tweet, Record::Tweet(tweet));
    ledger.put_record(key, Record::Reaction(tweet_reaction));
    proof {
        if old(ledger)@.sound() {
            lemma_add_reaction_keeps_sound(old(ledger)@, ctx, reaction, found);
        }
    }
    Ok(())
}

/// Records the signer's reaction to a tweet, at the address that the signer
/// and the tweet derive, and counts it on the tweet; or refuses, and leaves
/// the ledger as it was.
pub fn add_reaction(ledger: &mut Ledger, ctx: AddReactionContext, reaction: ReactionType) -> (done:
    Result<(), Error>)
    requires
        old(ledger).indexed(),
    ensures
        final(ledger).indexed(),
        old(ledger).wf() ==> final(ledger).wf(),
        old(ledger)@.addressed() ==> final(ledger)@.addressed(),
        follows(add_reaction_spec(old(ledger)@, ctx, reaction), old(ledger)@, final(ledger)@, done),
{
    let found = reaction_address(&ctx.reaction_author.key(), &ctx.tweet);
    add_reaction_at(ledger, ctx, reaction, found)
}

} // verus!
