//! Taking a reaction back: its record goes, and the tweet counts one less.

use crate::address::{reaction_address, reaction_address_spec, Address};
use crate::errors::{Error, LedgerError, TwitterError};
use crate::ledger::{
    follows, lemma_put_other, lemma_take_reaction, reactions_to, Ledger, LedgerView, Signer,
};
use crate::states::{Reaction, ReactionType, Record, Tweet};
use vstd::prelude::*;

verus! {

/// The accounts of a reaction that goes: who takes it back, the reaction,
/// and the tweet that it is about.
#[derive(Clone, Copy, Debug)]
pub struct RemoveReactionContext {
    pub reaction_author: Signer,
    pub tweet_reaction: Address,
    pub tweet: Address,
}

/// The ledger without the reaction, or why it stays, where `found` is the
/// address and bump that were derived anew for the signer and the tweet.
pub open spec fn remove_reaction_at_spec(
    ledger: LedgerView,
    ctx: RemoveReactionContext,
    found: Option<(Address, u8)>,
) -> Result<LedgerView, Error> {
    let reaction = ledger.reaction(ctx.tweet_reaction);
    let tweet = ledger.tweet(ctx.tweet);
    if !ledger.holds_reaction(ctx.tweet_reaction) || !ledger.holds_tweet(ctx.tweet) {
        Err(Error::Ledger(LedgerError::RecordNotFound))
    } else if reaction.reaction_author != ctx.reaction_author.address() {
        Err(Error::Ledger(LedgerError::AuthorMismatch))
    } else if reaction.parent_tweet != ctx.tweet {
        Err(Error::Ledger(LedgerError::ParentMismatch))
    } else if found != Some((ctx.tweet_reaction, reaction.bump)) {
        Err(Error::Ledger(LedgerError::AddressMismatch))
    } else {
        match reaction.reaction {
            ReactionType::Like => if tweet.likes == 0 {
                Err(Error::Twitter(TwitterError::MinLikesReached))
            } else {
                Ok(
                    ledger.with_record(ctx.tweet, Record::Tweet(tweet.unliked())).without_record(
                        ctx.tweet_reaction,
                    ),
                )
            },
            ReactionType::Dislike => if tweet.dislikes == 0 {
                Err(Error::Twitter(TwitterError::MinDislikesReached))
            } else {
                Ok(
                    ledger.with_record(ctx.tweet, Record::Tweet(tweet.undisliked())).without_record(
                        ctx.tweet_reaction,
                    ),
                )
            },
        }
    }
}

/// The ledger without the reaction, or why it stays.
pub open spec fn remove_reaction_spec(ledger: LedgerView, ctx: RemoveReactionContext) -> Result<
    LedgerView,
    Error,
> {
    remove_reaction_at_spec(
        ledger,
        ctx,
        reaction_address_spec(ctx.reaction_author.address(), ctx.tweet),
    )
}

/// A reaction that is taken out of a sound ledger leaves the ledger sound:
/// the tweet has one reaction less of that kind, and counts one less.
pub proof fn lemma_remove_reaction_keeps_sound(
    ledger: LedgerView,
    ctx: RemoveReactionContext,
    found: Option<(Address, u8)>,
)
    requires
        ledger.sound(),
        remove_reaction_at_spec(ledger, ctx, found) is Ok,
    ensures
        remove_reaction_at_spec(ledger, ctx, found)->Ok_0.sound(),
{
    let after = remove_reaction_at_spec(ledger, ctx, found)->Ok_0;
    let key = ctx.tweet_reaction;
    let counted = ledger.records.insert(ctx.tweet, after.records[ctx.tweet]);
    assert(after.records == counted.remove(key));
    assert(ledger.records.dom().contains(ctx.tweet));
    assert forall|at: Address| #[trigger] after.records.dom().contains(at) implies after.well_kept(
        at,
    ) by {
        lemma_put_other(ledger.records, ctx.tweet, after.records[ctx.tweet], at, ReactionType::Like);
        lemma_put_other(
            ledger.records,
            ctx.tweet,
            after.records[ctx.tweet],
            at,
            ReactionType::Dislike,
        );
        lemma_take_reaction(counted, key, at, ReactionType::Like);
        lemma_take_reaction(counted, key, at, ReactionType::Dislike);
        assert(ledger.records.dom().contains(at));
    }
}

/// In a sound ledger the tweet of a reaction counts that reaction: taking
/// the reaction back is never refused because the counter is at zero.
pub proof fn lemma_reaction_is_counted(
    ledger: LedgerView,
    ctx: RemoveReactionContext,
    found: Option<(Address, u8)>,
)
    requires
        ledger.sound(),
    ensures
        remove_reaction_at_spec(ledger, ctx, found) != Err::<LedgerView, Error>(
            Error::Twitter(TwitterError::MinLikesReached),
        ),
        remove_reaction_at_spec(ledger, ctx, found) != Err::<LedgerView, Error>(
            Error::Twitter(TwitterError::MinDislikesReached),
        ),
{
    if ledger.holds_reaction(ctx.tweet_reaction) && ledger.holds_tweet(ctx.tweet)
        && ledger.reaction(ctx.tweet_reaction).parent_tweet == ctx.tweet {
        let kind = ledger.reaction(ctx.tweet_reaction).reaction;
        assert(ledger.records.dom().contains(ctx.tweet));
        assert(ledger.well_kept(ctx.tweet));
        assert(reactions_to(ledger.records, ctx.tweet, kind).contains(ctx.tweet_reaction));
    }
}

/// Takes the signer's reaction back, where `found` is what
/// `reaction_address` derives anew for the signer and the tweet: the record
/// goes and the tweet counts one less; or refuses, and leaves the ledger as
/// it was.
pub fn remove_reaction_at(
    ledger: &mut Ledger,
    ctx: RemoveReactionContext,
    found: Option<(Address, u8)>,
) -> (done: Result<(), Error>)
    requires
        old(ledger).indexed(),
    ensures
        final(ledger).indexed(),
        old(ledger).wf() ==> final(ledger).wf(),
        follows(
            remove_reaction_at_spec(old(ledger)@, ctx, found),
            old(ledger)@,
            final(ledger)@,
            done,
        ),
{
    let reaction: Reaction = match ledger.reaction(&ctx.tweet_reaction) {
        Some(reaction) => *reaction,
        None => {
            return Err(Error::Ledger(LedgerError::RecordNotFound));
        },
    };
    let mut tweet: Tweet = match ledger.tweet(&ctx.tweet) {
        Some(tweet) => tweet.clone(),
        None => {
            return Err(Error::Ledger(LedgerError::RecordNotFound));
        },
    };
    if reaction.reaction_author != ctx.reaction_author.key() {
        return Err(Error::Ledger(LedgerError::AuthorMismatch));
    }
    if reaction.parent_tweet != ctx.tweet {
        return Err(Error::Ledger(LedgerError::ParentMismatch));
    }
    let in_place = match found {
        Some((key, bump)) => key == ctx.tweet_reaction && bump == reaction.bump,
        None => false,
    };
    if !in_place {
        return Err(Error::Ledger(LedgerError::AddressMismatch));
    }
    match tweet.unreact(reaction.reaction) {
        Ok(()) => {},
        Err(error) => {
            return Err(Error::Twitter(error));
        },
    }
    ledger.put_record(ctx.tweet, Record::Tweet(tweet));
    ledger.take_record(&ctx.tweet_reaction);
    proof {
        if old(ledger)@.sound() {
            lemma_remove_reaction_keeps_sound(old(ledger)@, ctx, found);
        }
    }
    Ok(())
}

/// Takes the signer's reaction back: the record goes and the tweet counts
/// one less; or refuses, and leaves the ledger as it was.
pub fn remove_reaction(ledger: &mut Ledger, ctx: RemoveReactionContext) -> (done: Result<(), Error>)
    requires
        old(ledger).indexed(),
    ensures
        final(ledger).indexed(),
        old(ledger).wf() ==> final(ledger).wf(),
        old(ledger)@.addressed() ==> final(ledger)@.addressed(),
        follows(remove_reaction_spec(old(ledger)@, ctx), old(ledger)@, final(ledger)@, done),
{
    let found = reaction_address(&ctx.reaction_author.key(), &ctx.tweet);
    remove_reaction_at(ledger, ctx, found)
}

} // verus!
