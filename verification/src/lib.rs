//! A small social ledger: tweets, comments and reactions that live at
//! addresses derived from their contents, and tips that are split between a
//! tweet's author and a treasury.
//!
//! The functions of this file are the entry points. Each of them either
//! takes effect as its `_spec` function says or changes nothing, and each
//! leaves a well-formed ledger well formed.

pub mod address;
pub mod errors;
pub mod instructions;
pub mod laws;
pub mod ledger;
pub mod states;
mod table;

use crate::errors::Error;
use crate::instructions::add_comment::{add_comment, add_comment_spec, AddCommentContext};
use crate::instructions::add_reaction::{add_reaction, add_reaction_spec, AddReactionContext};
use crate::instructions::initialize_tweet::{
    initialize_tweet, initialize_tweet_spec, InitializeTweet,
};
use crate::instructions::remove_comment::{
    remove_comment, remove_comment_spec, RemoveCommentContext,
};
use crate::instructions::remove_reaction::{
    remove_reaction, remove_reaction_spec, RemoveReactionContext,
};
use crate::instructions::tip_tweet::{handle_tip_tweet, tip_spec, TipTweet};
use crate::ledger::{follows, Ledger, LedgerView};
use crate::states::ReactionType;
use vstd::prelude::*;

verus! {

/// Opens a tweet.
pub fn initialize(ledger: &mut Ledger, ctx: InitializeTweet, topic: String, content: String) -> (done:
    Result<(), Error>)
    requires
        old(ledger).indexed(),
    ensures
        final(ledger).indexed(),
        old(ledger).wf() ==> final(ledger).wf(),
        old(ledger)@.addressed() ==> final(ledger)@.addressed(),
        follows(
            initialize_tweet_spec(old(ledger)@, ctx, topic, content),
            old(ledger)@,
            final(ledger)@,
            done,
        ),
{
    initialize_tweet(ledger, ctx, topic, content)
}

/// Likes a tweet.
pub fn like_tweet(ledger: &mut Ledger, ctx: AddReactionContext) -> (done: Result<(), Error>)
    requires
        old(ledger).indexed(),
    ensures
        final(ledger).indexed(),
        old(ledger).wf() ==> final(ledger).wf(),
        old(ledger)@.addressed() ==> final(ledger)@.addressed(),
        follows(
            add_reaction_spec(old(ledger)@, ctx, ReactionType::Like),
            old(ledger)@,
            final(ledger)@,
            done,
        ),
{
    add_reaction(ledger, ctx, ReactionType::Like)
}

/// Dislikes a tweet.
pub fn dislike_tweet(ledger: &mut Ledger, ctx: AddReactionContext) -> (done: Result<(), Error>)
    requires
        old(ledger).indexed(),
    ensures
        final(ledger).indexed(),
        old(ledger).wf() ==> final(ledger).wf(),
        old(ledger)@.addressed() ==> final(ledger)@.addressed(),
        follows(
            add_reaction_spec(old(ledger)@, ctx, ReactionType::Dislike),
            old(ledger)@,
            final(ledger)@,
            done,
        ),
{
    add_reaction(ledger, ctx, ReactionType::Dislike)
}

/// Takes a reaction back.
pub fn reaction_remove(ledger: &mut Ledger, ctx: RemoveReactionContext) -> (done: Result<
    (),
    Error,
>)
    requires
        old(ledger).indexed(),
    ensures
        final(ledger).indexed(),
        old(ledger).wf() ==> final(ledger).wf(),
        old(ledger)@.addressed() ==> final(ledger)@.addressed(),
        follows(remove_reaction_spec(old(ledger)@, ctx), old(ledger)@, final(ledger)@, done),
{
    remove_reaction(ledger, ctx)
}

/// Comments on a tweet.
pub fn comment_tweet(ledger: &mut Ledger, ctx: AddCommentContext, comment_content: String) -> (done:
    Result<(), Error>)
    requires
        old(ledger).indexed(),
    ensures
        final(ledger).indexed(),
        old(ledger).wf() ==> final(ledger).wf(),
        old(ledger)@.addressed() ==> final(ledger)@.addressed(),
        follows(
            add_comment_spec(old(ledger)@, ctx, comment_content),
            old(ledger)@,
            final(ledger)@,
            done,
        ),
{
    add_comment(ledger, ctx, comment_content)
}

/// Takes a comment back.
pub fn comment_remove(ledger: &mut Ledger, ctx: RemoveCommentContext) -> (done: Result<(), Error>)
    requires
        old(ledger).indexed(),
    ensures
        final(ledger).indexed(),
        old(ledger).wf() ==> final(ledger).wf(),
        old(ledger)@.addressed() ==> final(ledger)@.addressed(),
        follows(remove_comment_spec(old(ledger)@, ctx), old(ledger)@, final(ledger)@, done),
{
    remove_comment(ledger, ctx)
}

/// Tips a tweet.
pub fn tip_tweet(ledger: &mut Ledger, ctx: TipTweet, amount: u64) -> (done: Result<(), Error>)
    requires
        old(ledger).indexed(),
    ensures
        final(ledger).indexed(),
        old(ledger).wf() ==> final(ledger).wf(),
        old(ledger)@.addressed() ==> final(ledger)@.addressed(),
        follows(tip_spec(old(ledger)@, ctx, amount), old(ledger)@, final(ledger)@, done),
{
    handle_tip_tweet(ledger, ctx, amount)
}

/// A request to the ledger: one of its entry points, with its arguments.
#[derive(Debug)]
#[allow(inconsistent_fields)]
pub enum Instruction {
    Initialize { ctx: InitializeTweet, topic: String, content: String },
    LikeTweet { ctx: AddReactionContext },
    DislikeTweet { ctx: AddReactionContext },
    ReactionRemove { ctx: RemoveReactionContext },
    CommentTweet { ctx: AddCommentContext, comment_content: String },
    CommentRemove { ctx: RemoveCommentContext },
    TipTweet { ctx: TipTweet, amount: u64 },
}

/// The ledger after the instruction, or why the instruction is refused.
pub open spec fn outcome(ledger: LedgerView, instruction: Instruction) -> Result<LedgerView, Error> {
    match instruction {
        Instruction::Initialize { ctx, topic, content } => initialize_tweet_spec(
            ledger,
            ctx,
            topic,
            content,
        ),
        Instruction::LikeTweet { ctx } => add_reaction_spec(ledger, ctx, ReactionType::Like),
        Instruction::DislikeTweet { ctx } => add_reaction_spec(ledger, ctx, ReactionType::Dislike),
        Instruction::ReactionRemove { ctx } => remove_reaction_spec(ledger, ctx),
        Instruction::CommentTweet { ctx, comment_content } => add_comment_spec(
            ledger,
            ctx,
            comment_content,
        ),
        Instruction::CommentRemove { ctx } => remove_comment_spec(ledger, ctx),
        Instruction::TipTweet { ctx, amount } => tip_spec(ledger, ctx, amount),
    }
}

/// Carries out one instruction, through the entry point that it names.
pub fn process(ledger: &mut Ledger, instruction: Instruction) -> (done: Result<(), Error>)
    requires
        old(ledger).indexed(),
    ensures
        final(ledger).indexed(),
        old(ledger).wf() ==> final(ledger).wf(),
        old(ledger)@.addressed() ==> final(ledger)@.addressed(),
        follows(outcome(old(ledger)@, instruction), old(ledger)@, final(ledger)@, done),
{
    match instruction {
        Instruction::Initialize { ctx, topic, content } => initialize(ledger, ctx, topic, content),
        Instruction::LikeTweet { ctx } => like_tweet(ledger, ctx),
        Instruction::DislikeTweet { ctx } => dislike_tweet(ledger, ctx),
        Instruction::ReactionRemove { ctx } => reaction_remove(ledger, ctx),
        Instruction::CommentTweet { ctx, comment_content } => comment_tweet(
            ledger,
            ctx,
            comment_content,
        ),
        Instruction::CommentRemove { ctx } => comment_remove(ledger, ctx),
        Instruction::TipTweet { ctx, amount } => tip_tweet(ledger, ctx, amount),
    }
}

} // verus!
