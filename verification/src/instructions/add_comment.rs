//! Commenting on a tweet.

use crate::address::{comment_address, comment_address_spec, Address};
use crate::errors::{Error, LedgerError, TwitterError};
use crate::ledger::{follows, lemma_put_other, Ledger, LedgerView, Signer};
use crate::states::{byte_len, check_comment, Comment, ReactionType, Record, COMMENT_LENGTH};
use vstd::prelude::*;

verus! {

/// The accounts of a new comment: who comments, and on which tweet.
#[derive(Clone, Copy, Debug)]
pub struct AddCommentContext {
    pub comment_author: Signer,
    pub tweet: Address,
}

/// The ledger with the new comment, or why the comment is refused, where
/// `found` is the address and bump that the comment was given.
pub open spec fn add_comment_at_spec(
    ledger: LedgerView,
    ctx: AddCommentContext,
    comment_content: String,
    found: Option<(Address, u8)>,
) -> Result<LedgerView, Error> {
    if byte_len(comment_content@) > COMMENT_LENGTH {
        Err(Error::Twitter(TwitterError::CommentTooLong))
    } else if !ledger.holds_tweet(ctx.tweet) {
        Err(Error::Ledger(LedgerError::RecordNotFound))
    } else {
        match found {
            None => Err(Error::Ledger(LedgerError::NoViableAddress)),
            Some((key, bump)) => if ledger.records.dom().contains(key) {
                Err(Error::Ledger(LedgerError::AddressCollision))
            } else {
                Ok(
                    ledger.with_record(
                        key,
                        Record::Comment(
                            Comment {
                                comment_author: ctx.comment_author.address(),
                                parent_tweet: ctx.tweet,
                                content: comment_content,
                                bump,
                            },
                        ),
                    ),
                )
            },
        }
    }
}

/// The ledger with the new comment, or why the comment is refused.
pub open spec fn add_comment_spec(
    ledger: LedgerView,
    ctx: AddCommentContext,
    comment_content: String,
) -> Result<LedgerView, Error> {
    add_comment_at_spec(
        ledger,
        ctx,
        comment_content,
        comment_address_spec(ctx.comment_author.address(), comment_content@, ctx.tweet),
    )
}

/// A comment that is kept in a sound ledger leaves the ledger sound.
pub proof fn lemma_add_comment_keeps_sound(
    ledger: LedgerView,
    ctx: AddCommentContext,
    comment_content: String,
    found: Option<(Address, u8)>,
)
    requires
        ledger.sound(),
        add_comment_at_spec(ledger, ctx, comment_content, found) is Ok,
    ensures
        add_comment_at_spec(ledger, ctx, comment_content, found)->Ok_0.sound(),
{
    let after = add_comment_at_spec(ledger, ctx, comment_content, found)->Ok_0;
    let key = found->Some_0.0;
    assert forall|at: Address| #[trigger] after.records.dom().contains(at) implies after.well_kept(
        at,
    ) by {
        lemma_put_other(ledger.records, key, after.records[key], at, ReactionType::Like);
        lemma_put_other(ledger.records, key, after.records[key], at, ReactionType::Dislike);
        if at != key {
            assert(ledger.records.dom().contains(at));
        }
    }
}

/// Keeps a comment of the signer on a tweet at the address `found`, which is
/// to be the one that `comment_address` derives for the signer, the text and
/// the tweet; or refuses, and leaves the ledger as it was.
pub fn add_comment_at(
    ledger: &mut Ledger,
    ctx: AddCommentContext,
    comment_content: String,
    found: Option<(Address, u8)>,
) -> (done: Result<(), Error>)
    requires
        old(ledger).indexed(),
    ensures
        final(ledger).indexed(),
        old(ledger).wf() ==> final(ledger).wf(),
        follows(
            add_comment_at_spec(old(ledger)@, ctx, comment_content, found),
            old(ledger)@,
            final(ledger)@,
            done,
        ),
{
    match check_comment(comment_content.as_str()) {
        Ok(()) => {},
        Err(error) => {
            return Err(Error::Twitter(error));
        },
    }
    if ledger.tweet(&ctx.tweet).is_none() {
        return Err(Error::Ledger(LedgerError::RecordNotFound));
    }
    let (key, bump) = match found {
        Some(found) => found,
        None => {
            return Err(Error::Ledger(LedgerError::NoViableAddress));
        },
    };
    if ledger.is_occupied(&key) {
        return Err(Error::Ledger(LedgerError::AddressCollision));
    }
    let comment = Comment {
        comment_author: ctx.comment_author.key(),
        parent_tweet: ctx.tweet,
        content: comment_content,
        bump,
    };
    ledger.put_record(key, Record::Comment(comment));
    proof {
        if old(ledger)@.sound() {
            lemma_add_comment_keeps_sound(old(ledger)@, ctx, comment_content, found);
        }
    }
    Ok(())
}

/// Keeps a comment of the signer on a tweet, at the address that the signer,
/// the text and the tweet derive; or refuses, and leaves the ledger as it was.
pub fn add_comment(ledger: &mut Ledger, ctx: AddCommentContext, comment_content: String) -> (done:
    Result<(), Error>)
    requires
        old(ledger).indexed(),
    ensures
        final(ledger).indexed(),
        old(ledger).wf() ==> final(ledger).wf(),
        old(ledger)@.addressed() ==> final(ledger)@.addressed(),
        follows(
            add_comment_spec(old(ledger)@, ctx, comment_content),
            old(ledger)@,
            final(ledger)@,
            done,
        ),
{
    let found = comment_address(&ctx.comment_author.key(), comment_content.as_str(), &ctx.tweet);
    add_comment_at(ledger, ctx, comment_content, found)
}

} // verus!
