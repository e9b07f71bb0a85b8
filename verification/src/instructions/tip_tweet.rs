//! Tipping a tweet: the tip is split between the tweet's author and the
//! treasury, and the tweet counts the whole of it.

use crate::address::Address;
use crate::errors::{Error, LedgerError, TipError};
use crate::ledger::{
    follows, lemma_put_other, lemma_refund_undoes_transfer, transfer_spec, Ledger, LedgerView, Signer,
};
use crate::states::{ReactionType, Record, Tweet};
use vstd::prelude::*;

verus! {

/// The treasury, `BGwManNyZ2dQpUTRCDBdyMd8BqKF7bS1EJA7fycMmAw6`.
pub const TREASURY_PUBKEY: [u8; 32] = [
    152, 170, 10, 103, 215, 117, 198, 12, 77, 186, 230, 44, 214, 2, 245, 235,
    98, 116, 191, 220, 102, 53, 152, 157, 36, 227, 1, 74, 184, 144, 36, 133,
];

/// The treasury takes `ROYALTY_NUMERATOR` parts in `ROYALTY_DENOMINATOR` of every tip.
pub const ROYALTY_NUMERATOR: u64 = 8;

/// The parts that a tip is divided into.
pub const ROYALTY_DENOMINATOR: u64 = 1000;

/// The address of the treasury.
pub open spec fn treasury() -> Address {
    Address { bytes: TREASURY_PUBKEY }
}

/// The address of the treasury.
#[verifier::when_used_as_spec(treasury)]
pub fn treasury_address() -> (address: Address)
    ensures
        address == treasury(),
{
    Address { bytes: TREASURY_PUBKEY }
}

/// The accounts of a tip: who pays, the tweet, its author and the treasury.
#[derive(Clone, Copy, Debug)]
pub struct TipTweet {
    pub tipper: Signer,
    pub tweet_author: Address,
    pub treasury: Address,
    pub tweet: Address,
}

/// The two parts of a tip.
#[derive(Clone, Copy, Debug, PartialEq, Eq, Structural)]
pub struct TipSplit {
    /// What goes to the author of the tweet.
    pub author_amount: u64,
    /// What goes to the treasury.
    pub royalty_fee: u64,
}

/// The treasury's part of a tip of `amount`, rounded down.
pub open spec fn royalty_fee_spec(amount: u64) -> u64 {
    (amount * ROYALTY_NUMERATOR / (ROYALTY_DENOMINATOR as int)) as u64
}

/// The parts of a tip of `amount`, or why there is no such tip.
pub open spec fn split_spec(amount: u64) -> Result<TipSplit, TipError> {
    if amount == 0 {
        Err(TipError::ZeroAmount)
    } else if amount - royalty_fee_spec(amount) == 0 {
        Err(TipError::TipTooSmall)
    } else {
        Ok(
            TipSplit {
                author_amount: (amount - royalty_fee_spec(amount)) as u64,
                royalty_fee: royalty_fee_spec(amount),
            },
        )
    }
}

/// Splits a tip between the author and the treasury.
pub fn split_tip(amount: u64) -> (split: Result<TipSplit, TipError>)
    ensures
        split == split_spec(amount),
{
    if amount == 0 {
        return Err(TipError::ZeroAmount);
    }
    let product: u128 = amount as u128 * ROYALTY_NUMERATOR as u128;
    assert(product == amount * 8);
    assert(product / 1000 <= amount);
    let royalty_fee: u64 = (product / ROYALTY_DENOMINATOR as u128) as u64;
    let author_amount: u64 = amount - royalty_fee;
    if author_amount == 0 {
        return Err(TipError::TipTooSmall);
    }
    Ok(TipSplit { author_amount, royalty_fee })
}

/// The ledger after the tip, or why the tip is refused.
pub open spec fn tip_spec(ledger: LedgerView, ctx: TipTweet, amount: u64) -> Result<
    LedgerView,
    Error,
> {
    let tipper = ctx.tipper.address();
    if !ledger.holds_tweet(ctx.tweet) {
        Err(Error::Ledger(LedgerError::RecordNotFound))
    } else if ctx.treasury != treasury() {
        Err(Error::Ledger(LedgerError::AddressMismatch))
    } else if ledger.tweet(ctx.tweet).tweet_author != ctx.tweet_author {
        Err(Error::Ledger(LedgerError::AuthorMismatch))
    } else {
        match split_spec(amount) {
            Err(error) => Err(Error::Tip(error)),
            Ok(split) => match transfer_spec(
                ledger.balances,
                tipper,
                ctx.tweet_author,
                split.author_amount,
            ) {
                Err(error) => Err(Error::Ledger(error)),
                Ok(paid) => match transfer_spec(paid, tipper, ctx.treasury, split.royalty_fee) {
                    Err(error) => Err(Error::Ledger(error)),
                    Ok(settled) => if ledger.tweet(ctx.tweet).total_tips + amount > u64::MAX {
                        Err(Error::Tip(TipError::Overflow))
                    } else {
                        Ok(
                            ledger.with_balances(settled).with_record(
                                ctx.tweet,
                                Record::Tweet(ledger.tweet(ctx.tweet).tipped(amount)),
                            ),
                        )
                    },
                },
            },
        }
    }
}

/// A tip that is paid in a sound ledger leaves the ledger sound.
pub proof fn lemma_tip_keeps_sound(ledger: LedgerView, ctx: TipTweet, amount: u64)
    requires
        ledger.sound(),
        tip_spec(ledger, ctx, amount) is Ok,
    ensures
        tip_spec(ledger, ctx, amount)->Ok_0.sound(),
{
    let after = tip_spec(ledger, ctx, amount)->Ok_0;
    assert(ledger.records.dom().contains(ctx.tweet));
    assert forall|at: Address| #[trigger] after.records.dom().contains(at) implies after.well_kept(
        at,
    ) by {
        lemma_put_other(ledger.records, ctx.tweet, after.records[ctx.tweet], at, ReactionType::Like);
        lemma_put_other(
            ledger.records,
            ctx.tweet,
            after.records[ctx.tweet],
            at,
            ReactionType::Dislike,
        );
        assert(ledger.records.dom().contains(at));
    }
}

/// Tips a tweet. The author's part and the treasury's part leave the
/// tipper's wallet, and the tweet counts the whole amount; or the tip is
/// refused and the ledger stays as it was.
pub fn handle_tip_tweet(ledger: &mut Ledger, ctx: TipTweet, amount: u64) -> (done: Result<
    (),
    Error,
>)
    requires
        old(ledger).indexed(),
    ensures
        final(ledger).indexed(),
        old(ledger).wf() ==> final(ledger).wf(),
        old(ledger)@.addressed() ==> final(ledger)@.addressed(),
        follows(tip_spec(old(ledger)@, ctx, amount), old(ledger)@, final(ledger)@, done),
{
    let mut tweet: Tweet = match ledger.tweet(&ctx.tweet) {
        Some(tweet) => tweet.clone(),
        None => {
            return Err(Error::Ledger(LedgerError::RecordNotFound));
        },
    };
    if ctx.treasury != treasury_address() {
        return Err(Error::Ledger(LedgerError::AddressMismatch));
    }
    if tweet.tweet_author != ctx.tweet_author {
        return Err(Error::Ledger(LedgerError::AuthorMismatch));
    }
    let split = match split_tip(amount) {
        Ok(split) => split,
        Err(error) => {
            return Err(Error::Tip(error));
        },
    };
    let tipper = ctx.tipper.key();
    proof {
        ledger.lemma_balances_total();
    }
    match ledger.move_lamports(&tipper, &ctx.tweet_author, split.author_amount) {
        Ok(()) => {},
        Err(error) => {
            return Err(Error::Ledger(error));
        },
    }
    let ghost paid = ledger@.balances;
    proof {
        ledger.lemma_balances_total();
        lemma_refund_undoes_transfer(
            old(ledger)@.balances,
            tipper,
            ctx.tweet_author,
            split.author_amount,
        );
    }
    match ledger.move_lamports(&tipper, &ctx.treasury, split.royalty_fee) {
        Ok(()) => {},
        Err(error) => {
            ledger.return_lamports(&tipper, &ctx.tweet_author, split.author_amount);
            assert(ledger@ == old(ledger)@);
            return Err(Error::Ledger(error));
        },
    }
    proof {
        lemma_refund_undoes_transfer(paid, tipper, ctx.treasury, split.royalty_fee);
    }
    match tweet.record_tip(amount) {
        Ok(()) => {
            ledger.put_record(ctx.tweet, Record::Tweet(tweet));
            proof {
                if old(ledger)@.sound() {
                    lemma_tip_keeps_sound(old(ledger)@, ctx, amount);
                }
            }
            Ok(())
        },
        Err(error) => {
            ledger.return_lamports(&tipper, &ctx.treasury, split.royalty_fee);
            ledger.return_lamports(&tipper, &ctx.tweet_author, split.author_amount);
            assert(ledger@ == old(ledger)@);
            Err(Error::Tip(error))
        },
    }
}

} // verus!
