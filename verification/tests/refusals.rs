use twitter::address::{comment_address, reaction_address, tweet_address, Address};
use twitter::errors::{Error, LedgerError, TwitterError};
use twitter::instructions::add_comment::{add_comment, add_comment_at, AddCommentContext};
use twitter::instructions::add_reaction::{add_reaction, add_reaction_at, AddReactionContext};
use twitter::instructions::initialize_tweet::{
    initialize_tweet, initialize_tweet_at, InitializeTweet,
};
use twitter::instructions::remove_comment::{
    remove_comment, remove_comment_at, RemoveCommentContext,
};
use twitter::instructions::remove_reaction::{
    remove_reaction, remove_reaction_at, RemoveReactionContext,
};
use twitter::ledger::{Ledger, Signer};
use twitter::states::{Comment, Reaction, ReactionType, Record, Tweet};

fn x() -> Address {
    Address::new([0x58u8; 32])
}

fn y() -> Address {
    Address::new([0x59u8; 32])
}

fn z() -> Address {
    Address::new([0x5au8; 32])
}

fn at(byte: u8) -> Address {
    Address::new([byte; 32])
}

fn opening(author: Address) -> InitializeTweet {
    InitializeTweet { tweet_authority: Signer::new(author), unix_timestamp: 77 }
}

/// What lives at the addresses that the tests of this file use.
fn snapshot(ledger: &Ledger, keys: &[Address]) -> Vec<(Option<Record>, u64)> {
    keys.iter().map(|key| (ledger.record(key).cloned(), ledger.balance(key))).collect()
}

fn staged() -> (Ledger, Address, Address, Address, Vec<Address>) {
    let mut ledger = Ledger::new();
    initialize_tweet(&mut ledger, opening(x()), "solana".to_string(), "hello".to_string()).unwrap();
    let tweet = tweet_address("solana", &x()).unwrap().0;
    let ctx = AddReactionContext { reaction_author: Signer::new(y()), tweet };
    add_reaction(&mut ledger, ctx, ReactionType::Like).unwrap();
    let reaction = reaction_address(&y(), &tweet).unwrap().0;
    let ctx = AddCommentContext { comment_author: Signer::new(y()), tweet };
    add_comment(&mut ledger, ctx, "gm".to_string()).unwrap();
    let comment = comment_address(&y(), "gm", &tweet).unwrap().0;
    ledger.deposit(&y(), 500).unwrap();
    let keys = vec![tweet, reaction, comment, x(), y(), z(), at(1), at(2)];
    (ledger, tweet, reaction, comment, keys)
}

#[test]
fn a_tweet_at_a_given_address_is_kept_there() {
    let mut ledger = Ledger::new();
    let done = initialize_tweet_at(
        &mut ledger,
        opening(x()),
        "t".repeat(50),
        "hello".to_string(),
        Some((at(1), 250)),
    );
    assert_eq!(done, Ok(()));
    assert_eq!(
        ledger.tweet(&at(1)),
        Some(&Tweet {
            tweet_author: x(),
            topic: "t".repeat(50),
            content: "hello".to_string(),
            likes: 0,
            dislikes: 0,
            total_tips: 0,
            timestamp: 77,
            bump: 250,
        })
    );
}

#[test]
fn a_tweet_without_an_address_is_refused() {
    let mut ledger = Ledger::new();
    let done =
        initialize_tweet_at(&mut ledger, opening(x()), "a".to_string(), "b".to_string(), None);
    assert_eq!(done, Err(Error::Ledger(LedgerError::NoViableAddress)));
}

#[test]
fn a_tweet_at_an_occupied_address_collides() {
    let (mut ledger, tweet, reaction, comment, keys) = staged();
    let before = snapshot(&ledger, &keys);
    for key in [tweet, reaction, comment] {
        let done = initialize_tweet_at(
            &mut ledger,
            opening(z()),
            "a".to_string(),
            "b".to_string(),
            Some((key, 255)),
        );
        assert_eq!(done, Err(Error::Ledger(LedgerError::AddressCollision)));
    }
    assert_eq!(snapshot(&ledger, &keys), before);
}

#[test]
fn limits_are_checked_before_the_address() {
    let mut ledger = Ledger::new();
    let done = initialize_tweet_at(&mut ledger, opening(x()), "t".repeat(51), "b".to_string(), None);
    assert_eq!(done, Err(Error::Twitter(TwitterError::TopicTooLong)));
    let done = initialize_tweet_at(&mut ledger, opening(x()), "t".to_string(), "c".repeat(281), None);
    assert_eq!(done, Err(Error::Twitter(TwitterError::ContentTooLong)));
    let ctx = AddCommentContext { comment_author: Signer::new(y()), tweet: at(1) };
    let done = add_comment_at(&mut ledger, ctx, "c".repeat(51), None);
    assert_eq!(done, Err(Error::Twitter(TwitterError::CommentTooLong)));
}

#[test]
fn a_reaction_needs_a_tweet() {
    let (mut ledger, _, reaction, comment, keys) = staged();
    let before = snapshot(&ledger, &keys);
    for target in [at(1), reaction, comment] {
        let ctx = AddReactionContext { reaction_author: Signer::new(z()), tweet: target };
        assert_eq!(
            add_reaction(&mut ledger, ctx, ReactionType::Like),
            Err(Error::Ledger(LedgerError::RecordNotFound))
        );
    }
    assert_eq!(snapshot(&ledger, &keys), before);
}

#[test]
fn a_reaction_at_a_given_address_is_kept_there() {
    let (mut ledger, tweet, _, _, _) = staged();
    let ctx = AddReactionContext { reaction_author: Signer::new(z()), tweet };
    assert_eq!(
        add_reaction_at(&mut ledger, ctx, ReactionType::Dislike, Some((at(1), 9))),
        Ok(())
    );
    assert_eq!(
        ledger.reaction(&at(1)),
        Some(&Reaction {
            reaction_author: z(),
            parent_tweet: tweet,
            reaction: ReactionType::Dislike,
            bump: 9,
        })
    );
    let kept = ledger.tweet(&tweet).unwrap();
    assert_eq!((kept.likes, kept.dislikes), (1, 1));
}

#[test]
fn a_reaction_without_an_address_or_at_an_occupied_one_is_refused() {
    let (mut ledger, tweet, reaction, _, keys) = staged();
    let before = snapshot(&ledger, &keys);
    let ctx = AddReactionContext { reaction_author: Signer::new(z()), tweet };
    assert_eq!(
        add_reaction_at(&mut ledger, ctx, ReactionType::Like, None),
        Err(Error::Ledger(LedgerError::NoViableAddress))
    );
    assert_eq!(
        add_reaction_at(&mut ledger, ctx, ReactionType::Like, Some((reaction, 1))),
        Err(Error::Ledger(LedgerError::AddressCollision))
    );
    assert_eq!(
        add_reaction_at(&mut ledger, ctx, ReactionType::Like, Some((tweet, 1))),
        Err(Error::Ledger(LedgerError::AddressCollision))
    );
    assert_eq!(snapshot(&ledger, &keys), before);
}

#[test]
fn only_the_author_takes_a_reaction_back() {
    let (mut ledger, tweet, reaction, _, keys) = staged();
    let before = snapshot(&ledger, &keys);
    let ctx = RemoveReactionContext {
        reaction_author: Signer::new(z()),
        tweet_reaction: reaction,
        tweet,
    };
    assert_eq!(remove_reaction(&mut ledger, ctx), Err(Error::Ledger(LedgerError::AuthorMismatch)));
    assert_eq!(snapshot(&ledger, &keys), before);
    assert_eq!(ledger.tweet(&tweet).unwrap().likes, 1);
}

#[test]
fn a_reaction_is_taken_back_from_its_own_tweet_only() {
    let (mut ledger, tweet, reaction, _, mut keys) = staged();
    initialize_tweet(&mut ledger, opening(x()), "rust".to_string(), "hi".to_string()).unwrap();
    let other = tweet_address("rust", &x()).unwrap().0;
    keys.push(other);
    let before = snapshot(&ledger, &keys);
    let ctx = RemoveReactionContext {
        reaction_author: Signer::new(y()),
        tweet_reaction: reaction,
        tweet: other,
    };
    assert_eq!(remove_reaction(&mut ledger, ctx), Err(Error::Ledger(LedgerError::ParentMismatch)));
    assert_eq!(snapshot(&ledger, &keys), before);
    assert_eq!(ledger.tweet(&tweet).unwrap().likes, 1);
    assert_eq!(ledger.tweet(&other).unwrap().likes, 0);
}

#[test]
fn taking_back_needs_a_reaction_and_a_tweet() {
    let (mut ledger, tweet, reaction, comment, keys) = staged();
    let before = snapshot(&ledger, &keys);
    let no_reaction = RemoveReactionContext {
        reaction_author: Signer::new(y()),
        tweet_reaction: comment,
        tweet,
    };
    assert_eq!(
        remove_reaction(&mut ledger, no_reaction),
        Err(Error::Ledger(LedgerError::RecordNotFound))
    );
    let no_tweet = RemoveReactionContext {
        reaction_author: Signer::new(y()),
        tweet_reaction: reaction,
        tweet: at(1),
    };
    assert_eq!(
        remove_reaction(&mut ledger, no_tweet),
        Err(Error::Ledger(LedgerError::RecordNotFound))
    );
    assert_eq!(snapshot(&ledger, &keys), before);
}

#[test]
fn a_reaction_that_is_not_at_its_derived_address_stays() {
    let (mut ledger, tweet, reaction, _, keys) = staged();
    let before = snapshot(&ledger, &keys);
    let bump = ledger.reaction(&reaction).unwrap().bump;
    let ctx = RemoveReactionContext {
        reaction_author: Signer::new(y()),
        tweet_reaction: reaction,
        tweet,
    };
    for found in [None, Some((at(1), bump)), Some((reaction, bump.wrapping_sub(1)))] {
        assert_eq!(
            remove_reaction_at(&mut ledger, ctx, found),
            Err(Error::Ledger(LedgerError::AddressMismatch))
        );
    }
    assert_eq!(snapshot(&ledger, &keys), before);
    assert_eq!(remove_reaction_at(&mut ledger, ctx, Some((reaction, bump))), Ok(()));
    assert!(!ledger.is_occupied(&reaction));
    assert_eq!(ledger.tweet(&tweet).unwrap().likes, 0);
}

#[test]
fn a_comment_needs_a_tweet() {
    let (mut ledger, _, reaction, comment, keys) = staged();
    let before = snapshot(&ledger, &keys);
    for target in [at(1), reaction, comment] {
        let ctx = AddCommentContext { comment_author: Signer::new(z()), tweet: target };
        assert_eq!(
            add_comment(&mut ledger, ctx, "gm".to_string()),
            Err(Error::Ledger(LedgerError::RecordNotFound))
        );
    }
    assert_eq!(snapshot(&ledger, &keys), before);
}

#[test]
fn a_comment_at_a_given_address_is_kept_there() {
    let (mut ledger, tweet, _, comment, keys) = staged();
    let ctx = AddCommentContext { comment_author: Signer::new(z()), tweet };
    let before = snapshot(&ledger, &keys);
    assert_eq!(
        add_comment_at(&mut ledger, ctx, "gn".to_string(), None),
        Err(Error::Ledger(LedgerError::NoViableAddress))
    );
    assert_eq!(
        add_comment_at(&mut ledger, ctx, "gn".to_string(), Some((comment, 3))),
        Err(Error::Ledger(LedgerError::AddressCollision))
    );
    assert_eq!(snapshot(&ledger, &keys), before);
    assert_eq!(add_comment_at(&mut ledger, ctx, "gn".to_string(), Some((at(2), 3))), Ok(()));
    assert_eq!(
        ledger.comment(&at(2)),
        Some(&Comment {
            comment_author: z(),
            parent_tweet: tweet,
            content: "gn".to_string(),
            bump: 3,
        })
    );
}

#[test]
fn taking_a_comment_back_needs_a_comment() {
    let (mut ledger, tweet, reaction, _, keys) = staged();
    let before = snapshot(&ledger, &keys);
    for target in [at(1), tweet, reaction] {
        let ctx = RemoveCommentContext { comment_author: Signer::new(y()), comment: target };
        assert_eq!(
            remove_comment(&mut ledger, ctx),
            Err(Error::Ledger(LedgerError::RecordNotFound))
        );
    }
    assert_eq!(snapshot(&ledger, &keys), before);
}

#[test]
fn a_comment_that_is_not_at_its_derived_address_stays() {
    let (mut ledger, _, _, comment, keys) = staged();
    let before = snapshot(&ledger, &keys);
    let bump = ledger.comment(&comment).unwrap().bump;
    let ctx = RemoveCommentContext { comment_author: Signer::new(y()), comment };
    for found in [None, Some((at(1), bump)), Some((comment, bump.wrapping_sub(1)))] {
        assert_eq!(
            remove_comment_at(&mut ledger, ctx, found),
            Err(Error::Ledger(LedgerError::AddressMismatch))
        );
    }
    assert_eq!(snapshot(&ledger, &keys), before);
    let intruder = RemoveCommentContext { comment_author: Signer::new(z()), comment };
    assert_eq!(
        remove_comment_at(&mut ledger, intruder, Some((comment, bump))),
        Err(Error::Ledger(LedgerError::AuthorMismatch))
    );
    assert_eq!(snapshot(&ledger, &keys), before);
    assert_eq!(remove_comment_at(&mut ledger, ctx, Some((comment, bump))), Ok(()));
    assert!(!ledger.is_occupied(&comment));
}
