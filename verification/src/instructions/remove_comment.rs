//! Taking a comment back.

use crate::address::{comment_address, comment_address_spec, Address};
use crate::errors::{Error, LedgerError};
use crate::ledger::{follows, lemma_take_other, Ledger, LedgerView, Signer};
use crate::states::ReactionType;
use vstd::prelude::*;

verus! {

/// The accounts of a comment that goes: who takes it back, and the comment.
#[derive(Clone, Copy, Debug)]
pub struct RemoveCommentContext {
    pub comment_author: Signer,
    pub comment: Address,
}

/// The ledger without the comment, or why it stays, where `found` is the
/// address and bump that were derived anew for the signer, the text of the
/// comment and its tweet.
pub open spec fn remove_comment_at_spec(
    ledger: LedgerView,
    ctx: RemoveCommentContext,
    found: Option<(Address, u8)>,
) -> Result<LedgerView, Error> {
    let comment = ledger.comment(ctx.comment);
    if !ledger.holds_comment(ctx.comment) {
        Err(Error::Ledger(LedgerError::RecordNotFound))
    } else if comment.comment_author != ctx.comment_author.address() {
        Err(Error::Ledger(LedgerError::AuthorMismatch))
    } else if found != Some((ctx.comment, comment.bump)) {
        Err(Error::Ledger(LedgerError::AddressMismatch))
    } else {
        Ok(ledger.without_record(ctx.comment))
    }
}

/// What the signer, the text of the comment at `ctx.comment` and its tweet
/// derive; nothing where no comment lives there.
pub open spec fn comment_found_spec(ledger: LedgerView, ctx: RemoveCommentContext) -> Option<
    (Address, u8),
> {
    if ledger.holds_comment(ctx.comment) {
        comment_address_spec(
            ctx.comment_author.address(),
            ledger.comment(ctx.comment).content@,
            ledger.comment(ctx.comment).parent_tweet,
        )
    } else {
        None
    }
}

/// The ledger without the comment, or why it stays.
pub open spec fn remove_comment_spec(ledger: LedgerView, ctx: RemoveCommentContext) -> Result<
    LedgerView,
    Error,
> {
    remove_comment_at_spec(ledger, ctx, comment_found_spec(ledger, ctx))
}

/// A comment that is taken out of a sound ledger leaves the ledger sound.
pub proof fn lemma_remove_comment_keeps_sound(
    ledger: LedgerView,
    ctx: RemoveCommentContext,
    found: Option<(Address, u8)>,
)
    requires
        ledger.sound(),
        remove_comment_at_spec(ledger, ctx, found) is Ok,
    ensures
        remove_comment_at_spec(ledger, ctx, found)->Ok_0.sound(),
{
    let after = remove_comment_at_spec(ledger, ctx, found)->Ok_0;
    assert forall|at: Address| #[trigger] after.records.dom().contains(at) implies after.well_kept(
        at,
    ) by {
        lemma_take_other(ledger.records, ctx.comment, at, ReactionType::Like);
        lemma_take_other(ledger.records, ctx.comment, at, ReactionType::Dislike);
        assert(ledger.records.dom().contains(at));
    }
}

/// Takes the signer's comment out of the ledger, where `found` is what
/// `comment_address` derives anew for the signer, the text of the comment
/// and its tweet; or refuses, and leaves the ledger as it was.
pub fn remove_comment_at(
    ledger: &mut Ledger,
    ctx: RemoveCommentContext,
    found: Option<(Address, u8)>,
) -> (done: Result<(), Error>)
    requires
        old(ledger).indexed(),
    ensures
        final(ledger).indexed(),
        old(ledger).wf() ==> final(ledger).wf(),
        follows(
            remove_comment_at_spec(old(ledger)@, ctx, found),
            old(ledger)@,
            final(ledger)@,
            done,
        ),
{
    let in_place = match ledger.comment(&ctx.comment) {
        None => {
            return Err(Error::Ledger(LedgerError::RecordNotFound));
        },
        Some(comment) => {
            if comment.comment_author != ctx.comment_author.key() {
                return Err(Error::Ledger(LedgerError::AuthorMismatch));
            }
            match found {
                Some((key, bump)) => key == ctx.comment && bump == comment.bump,
                None => false,
            }
        },
    };
    if !in_place {
        return Err(Error::Ledger(LedgerError::AddressMismatch));
    }
    ledger.take_record(&ctx.comment);
    proof {
        if old(ledger)@.sound() {
            lemma_remove_comment_keeps_sound(old(ledger)@, ctx, found);
        }
    }
    Ok(())
}

/// Takes the signer's comment out of the ledger; or refuses, and leaves the
/// ledger as it was.
pub fn remove_comment(ledger: &mut Ledger, ctx: RemoveCommentContext) -> (done: Result<(), Error>)
    requires
        old(ledger).indexed(),
    ensures
        final(ledger).indexed(),
        old(ledger).wf() ==> final(ledger).wf(),
        old(ledger)@.addressed() ==> final(ledger)@.addressed(),
        follows(remove_comment_spec(old(ledger)@, ctx), old(ledger)@, final(ledger)@, done),
{
    let found = match ledger.comment(&ctx.comment) {
        Some(comment) => comment_address(
            &ctx.comment_author.key(),
            comment.content.as_str(),
            &comment.parent_tweet,
        ),
        None => None,
    };
    remove_comment_at(ledger, ctx, found)
}

} // verus!
