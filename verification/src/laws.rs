//! What holds of the ledger whatever it is asked to do.

use crate::address::{
    comment_address_spec, reaction_address_spec, topic_head, topic_tail, tweet_address_spec,
    Address, MAX_SEED_LEN,
};
use crate::errors::{Error, LedgerError, TipError, TwitterError};
use crate::instructions::add_comment::lemma_add_comment_keeps_sound;
use crate::instructions::add_reaction::{
    add_reaction_at_spec, add_reaction_spec, lemma_add_reaction_keeps_sound, AddReactionContext,
};
use crate::instructions::initialize_tweet::{
    initialize_tweet_spec, lemma_initialize_tweet_keeps_sound, InitializeTweet,
};
use crate::instructions::remove_comment::{
    comment_found_spec, lemma_remove_comment_keeps_sound, remove_comment_spec,
    RemoveCommentContext,
};
use crate::instructions::remove_reaction::{
    lemma_reaction_is_counted, lemma_remove_reaction_keeps_sound, remove_reaction_at_spec,
    remove_reaction_spec, RemoveReactionContext,
};
use crate::instructions::tip_tweet::{
    lemma_tip_keeps_sound, split_spec, tip_spec, treasury, TipSplit, TipTweet,
};
use crate::ledger::{reactions_to, LedgerView};
use crate::states::{byte_len, ReactionType, Tweet, CONTENT_LENGTH, TOPIC_LENGTH};
use vstd::utf8::encode_utf8;
use crate::{outcome, Instruction};
use vstd::prelude::*;

verus! {

/// The ledger after the instruction: changed as the instruction says, or,
/// where the instruction is refused, as it was.
pub open spec fn step(ledger: LedgerView, instruction: Instruction) -> LedgerView {
    match outcome(ledger, instruction) {
        Ok(after) => after,
        Err(_) => ledger,
    }
}

/// The ledger after a sequence of instructions, each carried out or refused in turn.
pub open spec fn run(ledger: LedgerView, instructions: Seq<Instruction>) -> LedgerView
    decreases instructions.len(),
{
    if instructions.len() == 0 {
        ledger
    } else {
        step(run(ledger, instructions.drop_last()), instructions.last())
    }
}

/// Whether the instruction is a like of the tweet at `tweet` that succeeds.
pub open spec fn gives_like(ledger: LedgerView, instruction: Instruction, tweet: Address) -> bool {
    instruction matches Instruction::LikeTweet { ctx } && ctx.tweet == tweet && outcome(
        ledger,
        instruction,
    ) is Ok
}

/// Whether the instruction takes a like of the tweet at `tweet` back, and succeeds.
pub open spec fn withdraws_like(ledger: LedgerView, instruction: Instruction, tweet: Address) -> bool {
    instruction matches Instruction::ReactionRemove { ctx } && ctx.tweet == tweet
        && ledger.reaction(ctx.tweet_reaction).reaction == ReactionType::Like && outcome(
        ledger,
        instruction,
    ) is Ok
}

/// Whether the instruction is a dislike of the tweet at `tweet` that succeeds.
pub open spec fn gives_dislike(ledger: LedgerView, instruction: Instruction, tweet: Address) -> bool {
    instruction matches Instruction::DislikeTweet { ctx } && ctx.tweet == tweet && outcome(
        ledger,
        instruction,
    ) is Ok
}

/// Whether the instruction takes a dislike of the tweet at `tweet` back, and succeeds.
pub open spec fn withdraws_dislike(
    ledger: LedgerView,
    instruction: Instruction,
    tweet: Address,
) -> bool {
    instruction matches Instruction::ReactionRemove { ctx } && ctx.tweet == tweet
        && ledger.reaction(ctx.tweet_reaction).reaction == ReactionType::Dislike && outcome(
        ledger,
        instruction,
    ) is Ok
}

/// How many of the instructions, carried out in turn from `ledger`, are
/// successful likes of the tweet at `tweet`.
pub open spec fn likes_given(ledger: LedgerView, instructions: Seq<Instruction>, tweet: Address) -> nat
    decreases instructions.len(),
{
    if instructions.len() == 0 {
        0
    } else {
        let before = instructions.drop_last();
        likes_given(ledger, before, tweet) + if gives_like(
            run(ledger, before),
            instructions.last(),
            tweet,
        ) {
            1nat
        } else {
            0nat
        }
    }
}

/// How many of the instructions, carried out in turn from `ledger`,
/// successfully take a like of the tweet at `tweet` back.
pub open spec fn likes_withdrawn(
    ledger: LedgerView,
    instructions: Seq<Instruction>,
    tweet: Address,
) -> nat
    decreases instructions.len(),
{
    if instructions.len() == 0 {
        0
    } else {
        let before = instructions.drop_last();
        likes_withdrawn(ledger, before, tweet) + if withdraws_like(
            run(ledger, before),
            instructions.last(),
            tweet,
        ) {
            1nat
        } else {
            0nat
        }
    }
}

/// How many of the instructions, carried out in turn from `ledger`, are
/// successful dislikes of the tweet at `tweet`.
pub open spec fn dislikes_given(
    ledger: LedgerView,
    instructions: Seq<Instruction>,
    tweet: Address,
) -> nat
    decreases instructions.len(),
{
    if instructions.len() == 0 {
        0
    } else {
        let before = instructions.drop_last();
        dislikes_given(ledger, before, tweet) + if gives_dislike(
            run(ledger, before),
            instructions.last(),
            tweet,
        ) {
            1nat
        } else {
            0nat
        }
    }
}

/// How many of the instructions, carried out in turn from `ledger`,
/// successfully take a dislike of the tweet at `tweet` back.
pub open spec fn dislikes_withdrawn(
    ledger: LedgerView,
    instructions: Seq<Instruction>,
    tweet: Address,
) -> nat
    decreases instructions.len(),
{
    if instructions.len() == 0 {
        0
    } else {
        let before = instructions.drop_last();
        dislikes_withdrawn(ledger, before, tweet) + if withdraws_dislike(
            run(ledger, before),
            instructions.last(),
            tweet,
        ) {
            1nat
        } else {
            0nat
        }
    }
}

/// One where the condition holds, zero where it does not.
pub open spec fn one_if(condition: bool) -> int {
    if condition {
        1
    } else {
        0
    }
}

/// An instruction that is refused changes nothing.
pub proof fn law_refusal_changes_nothing(ledger: LedgerView, instruction: Instruction)
    requires
        outcome(ledger, instruction) is Err,
    ensures
        step(ledger, instruction) == ledger,
{
}

/// No instruction takes a tweet away or rewrites it: after any instruction
/// the tweet is where it was, with the author, topic, content, time stamp
/// and bump that it had. Its likes have grown by one where the instruction
/// gave it a like, have shrunk by one where the instruction took a like
/// back, and are what they were otherwise; and so for its dislikes.
pub proof fn law_step_keeps_tweet(ledger: LedgerView, instruction: Instruction, tweet: Address)
    requires
        ledger.holds_tweet(tweet),
    ensures
        step(ledger, instruction).holds_tweet(tweet),
        step(ledger, instruction).tweet(tweet).tweet_author == ledger.tweet(tweet).tweet_author,
        step(ledger, instruction).tweet(tweet).topic == ledger.tweet(tweet).topic,
        step(ledger, instruction).tweet(tweet).content == ledger.tweet(tweet).content,
        step(ledger, instruction).tweet(tweet).timestamp == ledger.tweet(tweet).timestamp,
        step(ledger, instruction).tweet(tweet).bump == ledger.tweet(tweet).bump,
        step(ledger, instruction).tweet(tweet).likes == ledger.tweet(tweet).likes + one_if(
            gives_like(ledger, instruction, tweet),
        ) - one_if(withdraws_like(ledger, instruction, tweet)),
        step(ledger, instruction).tweet(tweet).dislikes == ledger.tweet(tweet).dislikes + one_if(
            gives_dislike(ledger, instruction, tweet),
        ) - one_if(withdraws_dislike(ledger, instruction, tweet)),
{
}

/// Through any sequence of instructions a tweet stays where it is, and its
/// likes are those it had, plus the likes that succeeded, minus the likes
/// that were successfully taken back; and so for its dislikes. Both
/// counters are 64-bit unsigned numbers throughout.
pub proof fn law_counters_follow_reactions(
    ledger: LedgerView,
    instructions: Seq<Instruction>,
    tweet: Address,
)
    requires
        ledger.holds_tweet(tweet),
    ensures
        run(ledger, instructions).holds_tweet(tweet),
        run(ledger, instructions).tweet(tweet).likes == ledger.tweet(tweet).likes + likes_given(
            ledger,
            instructions,
            tweet,
        ) - likes_withdrawn(ledger, instructions, tweet),
        run(ledger, instructions).tweet(tweet).dislikes == ledger.tweet(tweet).dislikes
            + dislikes_given(ledger, instructions, tweet) - dislikes_withdrawn(
            ledger,
            instructions,
            tweet,
        ),
        0 <= run(ledger, instructions).tweet(tweet).likes <= u64::MAX,
        0 <= run(ledger, instructions).tweet(tweet).dislikes <= u64::MAX,
    decreases instructions.len(),
{
    if instructions.len() > 0 {
        let before = instructions.drop_last();
        law_counters_follow_reactions(ledger, before, tweet);
        law_step_keeps_tweet(run(ledger, before), instructions.last(), tweet);
    }
}

/// A tweet that has been opened stays: through any sequence of instructions
/// its address holds a tweet of the same author on the same topic.
pub proof fn law_tweets_stay(ledger: LedgerView, instructions: Seq<Instruction>, tweet: Address)
    requires
        ledger.holds_tweet(tweet),
    ensures
        run(ledger, instructions).holds_tweet(tweet),
        run(ledger, instructions).tweet(tweet).tweet_author == ledger.tweet(tweet).tweet_author,
        run(ledger, instructions).tweet(tweet).topic == ledger.tweet(tweet).topic,
    decreases instructions.len(),
{
    if instructions.len() > 0 {
        let before = instructions.drop_last();
        law_tweets_stay(ledger, before, tweet);
        law_step_keeps_tweet(run(ledger, before), instructions.last(), tweet);
    }
}

/// The two seeds of a topic hold its bytes, in order, and the first holds
/// at most `MAX_SEED_LEN` of them. Of a topic of at most twice as many
/// bytes, the second does too.
pub proof fn law_topic_fits_its_seeds(topic: Seq<char>)
    ensures
        topic_head(topic) + topic_tail(topic) == encode_utf8(topic),
        topic_head(topic).len() <= MAX_SEED_LEN,
        encode_utf8(topic).len() <= MAX_SEED_LEN ==> topic_head(topic) == encode_utf8(topic)
            && topic_tail(topic).len() == 0,
        encode_utf8(topic).len() <= 2 * MAX_SEED_LEN ==> topic_tail(topic).len() <= MAX_SEED_LEN,
{
    assert(topic_head(topic) + topic_tail(topic) =~= encode_utf8(topic));
    if encode_utf8(topic).len() <= MAX_SEED_LEN {
        assert(topic_head(topic) =~= encode_utf8(topic));
    }
}

/// A tweet within its limits whose topic has an address is opened when that
/// address is free.
pub proof fn law_tweet_opens(
    ledger: LedgerView,
    ctx: InitializeTweet,
    topic: String,
    content: String,
)
    requires
        byte_len(topic@) <= TOPIC_LENGTH,
        byte_len(content@) <= CONTENT_LENGTH,
        tweet_address_spec(topic@, ctx.tweet_authority.address()) is Some,
        !ledger.records.dom().contains(
            tweet_address_spec(topic@, ctx.tweet_authority.address())->Some_0.0,
        ),
    ensures
        initialize_tweet_spec(ledger, ctx, topic, content) is Ok,
        initialize_tweet_spec(ledger, ctx, topic, content)->Ok_0.holds_tweet(
            tweet_address_spec(topic@, ctx.tweet_authority.address())->Some_0.0,
        ),
{
}

/// An author opens one tweet on a topic, and no more: once the tweet is
/// open, whatever else has happened since, a tweet of the same author on the
/// same topic collides with it.
pub proof fn law_one_tweet_per_author_and_topic(
    ledger: LedgerView,
    ctx: InitializeTweet,
    topic: String,
    content: String,
    since: Seq<Instruction>,
    again: InitializeTweet,
    same_topic: String,
    other_content: String,
)
    requires
        initialize_tweet_spec(ledger, ctx, topic, content) is Ok,
        again.tweet_authority.address() == ctx.tweet_authority.address(),
        same_topic@ == topic@,
        byte_len(other_content@) <= CONTENT_LENGTH,
    ensures
        initialize_tweet_spec(
            run(initialize_tweet_spec(ledger, ctx, topic, content)->Ok_0, since),
            again,
            same_topic,
            other_content,
        ) == Err::<LedgerView, Error>(Error::Ledger(LedgerError::AddressCollision)),
{
    let opened = initialize_tweet_spec(ledger, ctx, topic, content)->Ok_0;
    let key = tweet_address_spec(topic@, ctx.tweet_authority.address())->Some_0.0;
    law_tweets_stay(opened, since, key);
}

/// An author has one reaction to a tweet at a time: while the reaction is
/// there, a like or a dislike of the same author for the same tweet collides
/// with it.
pub proof fn law_one_reaction_per_author_and_tweet(
    ledger: LedgerView,
    ctx: AddReactionContext,
    reaction: ReactionType,
    again: AddReactionContext,
    other: ReactionType,
)
    requires
        add_reaction_spec(ledger, ctx, reaction) is Ok,
        again.reaction_author.address() == ctx.reaction_author.address(),
        again.tweet == ctx.tweet,
    ensures
        add_reaction_spec(add_reaction_spec(ledger, ctx, reaction)->Ok_0, again, other) == Err::<
            LedgerView,
            Error,
        >(Error::Ledger(LedgerError::AddressCollision)),
{
}

/// The accounts with which the author of a reaction takes it back.
pub open spec fn taking_back(ctx: AddReactionContext) -> RemoveReactionContext {
    RemoveReactionContext {
        reaction_author: ctx.reaction_author,
        tweet_reaction: reaction_address_spec(ctx.reaction_author.address(), ctx.tweet)->Some_0.0,
        tweet: ctx.tweet,
    }
}

/// Taking a reaction back undoes it: the ledger is again what it was before
/// the reaction.
pub proof fn law_remove_undoes_reaction(
    ledger: LedgerView,
    ctx: AddReactionContext,
    reaction: ReactionType,
)
    requires
        add_reaction_spec(ledger, ctx, reaction) is Ok,
    ensures
        remove_reaction_spec(add_reaction_spec(ledger, ctx, reaction)->Ok_0, taking_back(ctx))
            == Ok::<LedgerView, Error>(ledger),
{
    let reacted = add_reaction_spec(ledger, ctx, reaction)->Ok_0;
    let undone = remove_reaction_spec(reacted, taking_back(ctx));
    assert(undone is Ok);
    assert(undone->Ok_0.records =~= ledger.records);
}

/// In a ledger in which every record is in place, a reaction that its author
/// takes back from the tweet it belongs to is always found at its derived
/// address: the request is never refused for an address that does not match.
pub proof fn law_reactions_are_in_place(ledger: LedgerView, ctx: RemoveReactionContext)
    requires
        ledger.addressed(),
    ensures
        remove_reaction_spec(ledger, ctx) != Err::<LedgerView, Error>(
            Error::Ledger(LedgerError::AddressMismatch),
        ),
{
}

/// In a ledger in which every record is in place, a comment that its author
/// takes back is always found at its derived address.
pub proof fn law_comments_are_in_place(ledger: LedgerView, ctx: RemoveCommentContext)
    requires
        ledger.addressed(),
    ensures
        remove_comment_spec(ledger, ctx) != Err::<LedgerView, Error>(
            Error::Ledger(LedgerError::AddressMismatch),
        ),
{
}

/// Every instruction keeps the ledger sound: its records stay within their
/// limits, comments and reactions stay with a tweet of the ledger, and
/// every tweet has as many likes and dislikes as the ledger holds reactions
/// to it of each kind.
pub proof fn law_step_keeps_soundness(ledger: LedgerView, instruction: Instruction)
    requires
        ledger.sound(),
    ensures
        step(ledger, instruction).sound(),
{
    if outcome(ledger, instruction) is Ok {
        match instruction {
            Instruction::Initialize { ctx, topic, content } => {
                lemma_initialize_tweet_keeps_sound(
                    ledger,
                    ctx,
                    topic,
                    content,
                    tweet_address_spec(topic@, ctx.tweet_authority.address()),
                );
            },
            Instruction::LikeTweet { ctx } => {
                lemma_add_reaction_keeps_sound(
                    ledger,
                    ctx,
                    ReactionType::Like,
                    reaction_address_spec(ctx.reaction_author.address(), ctx.tweet),
                );
            },
            Instruction::DislikeTweet { ctx } => {
                lemma_add_reaction_keeps_sound(
                    ledger,
                    ctx,
                    ReactionType::Dislike,
                    reaction_address_spec(ctx.reaction_author.address(), ctx.tweet),
                );
            },
            Instruction::ReactionRemove { ctx } => {
                lemma_remove_reaction_keeps_sound(
                    ledger,
                    ctx,
                    reaction_address_spec(ctx.reaction_author.address(), ctx.tweet),
                );
            },
            Instruction::CommentTweet { ctx, comment_content } => {
                lemma_add_comment_keeps_sound(
                    ledger,
                    ctx,
                    comment_content,
                    comment_address_spec(
                        ctx.comment_author.address(),
                        comment_content@,
                        ctx.tweet,
                    ),
                );
            },
            Instruction::CommentRemove { ctx } => {
                lemma_remove_comment_keeps_sound(ledger, ctx, comment_found_spec(ledger, ctx));
            },
            Instruction::TipTweet { ctx, amount } => {
                lemma_tip_keeps_sound(ledger, ctx, amount);
            },
        }
    }
}

/// In a sound ledger a tweet has as many likes as there are likes of it
/// on record, and as many dislikes as there are dislikes of it on record.
pub proof fn law_counters_are_the_reactions_on_record(ledger: LedgerView, tweet: Address)
    requires
        ledger.sound(),
        ledger.holds_tweet(tweet),
    ensures
        ledger.tweet(tweet).likes == reactions_to(
            ledger.records,
            tweet,
            ReactionType::Like,
        ).len(),
        ledger.tweet(tweet).dislikes == reactions_to(
            ledger.records,
            tweet,
            ReactionType::Dislike,
        ).len(),
{
    assert(ledger.records.dom().contains(tweet));
    assert(ledger.well_kept(tweet));
}

/// In a sound ledger a reaction is never kept from going because its tweet
/// counts no reaction of its kind: the tweet counts every reaction to it.
pub proof fn law_counters_do_not_underflow(ledger: LedgerView, ctx: RemoveReactionContext)
    requires
        ledger.sound(),
    ensures
        remove_reaction_spec(ledger, ctx) != Err::<LedgerView, Error>(
            Error::Twitter(TwitterError::MinLikesReached),
        ),
        remove_reaction_spec(ledger, ctx) != Err::<LedgerView, Error>(
            Error::Twitter(TwitterError::MinDislikesReached),
        ),
{
    lemma_reaction_is_counted(
        ledger,
        ctx,
        reaction_address_spec(ctx.reaction_author.address(), ctx.tweet),
    );
}

/// Every instruction keeps every record in place.
pub proof fn law_step_keeps_addresses(ledger: LedgerView, instruction: Instruction)
    requires
        ledger.addressed(),
    ensures
        step(ledger, instruction).addressed(),
{
}

/// A comment or a reaction is never rewritten: after any instruction it is
/// gone or what it was.
pub proof fn law_step_keeps_or_removes(ledger: LedgerView, instruction: Instruction, key: Address)
    requires
        ledger.holds_comment(key) || ledger.holds_reaction(key),
    ensures
        !step(ledger, instruction).records.dom().contains(key) || step(
            ledger,
            instruction,
        ).records[key] == ledger.records[key],
{
}

/// Whether the instruction is `signer` taking back the comment at `key`.
pub open spec fn takes_comment_back(instruction: Instruction, key: Address, signer: Address) -> bool {
    instruction matches Instruction::CommentRemove { ctx } && ctx.comment == key
        && ctx.comment_author.address() == signer
}

/// Whether the instruction is `signer` taking back the reaction at `key`
/// from the tweet at `tweet`.
pub open spec fn takes_reaction_back(
    instruction: Instruction,
    key: Address,
    tweet: Address,
    signer: Address,
) -> bool {
    instruction matches Instruction::ReactionRemove { ctx } && ctx.tweet_reaction == key
        && ctx.tweet == tweet && ctx.reaction_author.address() == signer
}

/// Only its author takes a comment out of the ledger: where a comment is
/// gone after an instruction, the instruction took that comment back and
/// was signed by the author of the comment.
pub proof fn law_only_the_author_removes_a_comment(
    ledger: LedgerView,
    instruction: Instruction,
    key: Address,
)
    requires
        ledger.holds_comment(key),
        !step(ledger, instruction).records.dom().contains(key),
    ensures
        takes_comment_back(instruction, key, ledger.comment(key).comment_author),
{
}

/// Only its author takes a reaction out of the ledger, and only from the
/// tweet that it is about: where a reaction is gone after an instruction,
/// the instruction took that reaction back from its tweet and was signed
/// by the author of the reaction.
pub proof fn law_only_the_author_removes_a_reaction(
    ledger: LedgerView,
    instruction: Instruction,
    key: Address,
)
    requires
        ledger.holds_reaction(key),
        !step(ledger, instruction).records.dom().contains(key),
    ensures
        takes_reaction_back(
            instruction,
            key,
            ledger.reaction(key).parent_tweet,
            ledger.reaction(key).reaction_author,
        ),
{
}

/// A tip of a positive amount splits into the treasury's part, which is the
/// amount times 8 over 1000, rounded down, and the author's part, which is
/// the rest and is positive: together they are the amount. No amount is
/// too small to tip.
pub proof fn law_tip_split(amount: u64)
    requires
        amount > 0,
    ensures
        split_spec(amount) is Ok,
        split_spec(amount) != Err::<TipSplit, TipError>(TipError::TipTooSmall),
        split_spec(amount)->Ok_0.royalty_fee == amount * 8 / 1000,
        split_spec(amount)->Ok_0.author_amount == amount - split_spec(amount)->Ok_0.royalty_fee,
        split_spec(amount)->Ok_0.author_amount + split_spec(amount)->Ok_0.royalty_fee == amount,
        split_spec(amount)->Ok_0.author_amount > 0,
{
}

/// What a tip of `amount` brings the wallet at `who`: the author's part
/// where it is the author's, the treasury's part where it is the
/// treasury's, less the amount where it is the tipper's.
pub open spec fn tip_credit(ctx: TipTweet, amount: u64, who: Address) -> int {
    one_if(who == ctx.tweet_author) * split_spec(amount)->Ok_0.author_amount + one_if(
        who == ctx.treasury,
    ) * split_spec(amount)->Ok_0.royalty_fee - one_if(who == ctx.tipper.address()) * amount
}

/// Whether a tip of `amount` names the tweet's author and the treasury, is
/// of a positive amount that the tipper holds, and leaves the wallets of the
/// author and of the treasury within what a balance can count.
pub open spec fn tip_can_be_paid(ledger: LedgerView, ctx: TipTweet, amount: u64) -> bool {
    &&& ledger.holds_tweet(ctx.tweet)
    &&& ctx.treasury == treasury()
    &&& ctx.tweet_author == ledger.tweet(ctx.tweet).tweet_author
    &&& amount >= 1
    &&& ledger.balances[ctx.tipper.address()] >= amount
    &&& ledger.balances[ctx.tweet_author] + tip_credit(ctx, amount, ctx.tweet_author) <= u64::MAX
    &&& ledger.balances[ctx.treasury] + tip_credit(ctx, amount, ctx.treasury) <= u64::MAX
}

/// A tip that can be paid, to a tweet whose tips stay within their counter,
/// is paid: the tweet counts the whole amount on top of its tips, and
/// nothing else of the tweet changes.
pub proof fn law_tip_is_paid(ledger: LedgerView, ctx: TipTweet, amount: u64)
    requires
        tip_can_be_paid(ledger, ctx, amount),
        ledger.tweet(ctx.tweet).total_tips + amount <= u64::MAX,
    ensures
        tip_spec(ledger, ctx, amount) is Ok,
        tip_spec(ledger, ctx, amount)->Ok_0.holds_tweet(ctx.tweet),
        tip_spec(ledger, ctx, amount)->Ok_0.tweet(ctx.tweet).total_tips == ledger.tweet(
            ctx.tweet,
        ).total_tips + amount,
        tip_spec(ledger, ctx, amount)->Ok_0.tweet(ctx.tweet) == ledger.tweet(ctx.tweet).tipped(
            amount,
        ),
{
}

/// A tip that is paid moves the author's part to the author and the
/// treasury's part to the treasury, both from the tipper and both as
/// `split_spec` gives them: every wallet holds what it held, plus what
/// the tip brings it. A wallet that is none of the three holds what it held,
/// and the tipper, where neither author nor treasury, pays the whole amount.
pub proof fn law_tip_moves_the_split(ledger: LedgerView, ctx: TipTweet, amount: u64, who: Address)
    requires
        tip_spec(ledger, ctx, amount) is Ok,
    ensures
        tip_spec(ledger, ctx, amount)->Ok_0.balances[who] == ledger.balances[who] + tip_credit(
            ctx,
            amount,
            who,
        ),
        split_spec(amount)->Ok_0.royalty_fee == amount * 8 / 1000,
        split_spec(amount)->Ok_0.author_amount == amount - amount * 8 / 1000,
        split_spec(amount)->Ok_0.author_amount >= 1,
{
}

/// A tip that succeeds changes, of all records, the tweet alone, and of the
/// tweet its tips alone.
pub proof fn law_tip_counts_whole_amount(ledger: LedgerView, ctx: TipTweet, amount: u64)
    requires
        tip_spec(ledger, ctx, amount) is Ok,
    ensures
        tip_spec(ledger, ctx, amount)->Ok_0.holds_tweet(ctx.tweet),
        tip_spec(ledger, ctx, amount)->Ok_0.tweet(ctx.tweet) == ledger.tweet(ctx.tweet).tipped(
            amount,
        ),
        tip_spec(ledger, ctx, amount)->Ok_0.tweet(ctx.tweet).total_tips == ledger.tweet(
            ctx.tweet,
        ).total_tips + amount,
        tip_spec(ledger, ctx, amount)->Ok_0.records == ledger.records.insert(
            ctx.tweet,
            tip_spec(ledger, ctx, amount)->Ok_0.records[ctx.tweet],
        ),
{
}

/// A tip that can be paid, to a tweet whose tips would pass what their
/// counter holds, is refused for the overflow. As every refusal does, it
/// leaves the ledger as it was.
pub proof fn law_tip_overflow_is_refused(ledger: LedgerView, ctx: TipTweet, amount: u64)
    requires
        tip_can_be_paid(ledger, ctx, amount),
        ledger.tweet(ctx.tweet).total_tips + amount > u64::MAX,
    ensures
        tip_spec(ledger, ctx, amount) == Err::<LedgerView, Error>(Error::Tip(TipError::Overflow)),
{
}

/// A reaction to a tweet whose counter of that kind is at its maximum is
/// refused for that, where the reaction has an address and the address is
/// free. As every refusal does, it leaves the ledger as it was.
pub proof fn law_full_counter_refuses_reaction(
    ledger: LedgerView,
    ctx: AddReactionContext,
    reaction: ReactionType,
    found: Option<(Address, u8)>,
)
    requires
        ledger.holds_tweet(ctx.tweet),
        ledger.tweet(ctx.tweet).counted(reaction) == u64::MAX,
        found is Some,
        !ledger.records.dom().contains(found->Some_0.0),
    ensures
        add_reaction_at_spec(ledger, ctx, reaction, found) == Err::<LedgerView, Error>(
            Error::Twitter(Tweet::at_maximum(reaction)),
        ),
{
}

/// A reaction that its author takes back from its tweet, from the address
/// that was derived anew, is kept where the tweet counts no reaction of its
/// kind: the request is refused for the empty counter. As every refusal
/// does, it leaves the ledger as it was.
pub proof fn law_empty_counter_keeps_reaction(
    ledger: LedgerView,
    ctx: RemoveReactionContext,
    found: Option<(Address, u8)>,
)
    requires
        ledger.holds_reaction(ctx.tweet_reaction),
        ledger.holds_tweet(ctx.tweet),
        ledger.reaction(ctx.tweet_reaction).reaction_author == ctx.reaction_author.address(),
        ledger.reaction(ctx.tweet_reaction).parent_tweet == ctx.tweet,
        found == Some((ctx.tweet_reaction, ledger.reaction(ctx.tweet_reaction).bump)),
        ledger.tweet(ctx.tweet).counted(ledger.reaction(ctx.tweet_reaction).reaction) == 0,
    ensures
        remove_reaction_at_spec(ledger, ctx, found) == Err::<LedgerView, Error>(
            Error::Twitter(Tweet::at_minimum(ledger.reaction(ctx.tweet_reaction).reaction)),
        ),
{
}

} // verus!
