use anchor_lang::solana_program::hash::hash;
use anchor_lang::solana_program::pubkey::Pubkey;
use std::str::FromStr;
use twitter::address::{
    comment_address, id, reaction_address, tweet_address, Address, COMMENT_SEED, ID,
    TWEET_REACTION_SEED, TWEET_SEED,
};
use twitter::instructions::tip_tweet::{treasury_address, TREASURY_PUBKEY};

#[test]
fn program_id_is_the_declared_key() {
    let key = Pubkey::from_str("47ofz98ZHkDxec7pBjBqPwq2VqhpK4h1BDhLa8h7zZWb").unwrap();
    assert_eq!(key.to_bytes(), ID);
    assert_eq!(id(), Address::new(key.to_bytes()));
}

#[test]
fn treasury_is_the_registered_key() {
    let key = Pubkey::from_str("BGwManNyZ2dQpUTRCDBdyMd8BqKF7bS1EJA7fycMmAw6").unwrap();
    assert_eq!(key.to_bytes(), TREASURY_PUBKEY);
    assert_eq!(treasury_address().to_bytes(), key.to_bytes());
}

#[test]
fn seed_tags_are_the_usual_ones() {
    assert_eq!(TWEET_SEED, "TWEET_SEED");
    assert_eq!(TWEET_REACTION_SEED, "TWEET_REACTION_SEED");
    assert_eq!(COMMENT_SEED, "COMMENT_SEED");
}

#[test]
fn tweet_address_is_the_program_derived_address() {
    let author = Address::new([7u8; 32]);
    let program = Pubkey::new_from_array(ID);
    let expected =
        Pubkey::find_program_address(&[b"solana", b"TWEET_SEED", &[7u8; 32]], &program);
    let found = tweet_address("solana", &author).unwrap();
    assert_eq!(found.0.to_bytes(), expected.0.to_bytes());
    assert_eq!(found.1, expected.1);
    assert_ne!(found.0, author);
}

#[test]
fn reaction_address_is_the_program_derived_address() {
    let author = Address::new([1u8; 32]);
    let tweet = Address::new([2u8; 32]);
    let program = Pubkey::new_from_array(ID);
    let expected = Pubkey::find_program_address(
        &[b"TWEET_REACTION_SEED", &[1u8; 32], &[2u8; 32]],
        &program,
    );
    let found = reaction_address(&author, &tweet).unwrap();
    assert_eq!(found.0.to_bytes(), expected.0.to_bytes());
    assert_eq!(found.1, expected.1);
    assert_ne!(found.0, author);
    assert_ne!(found.0, tweet);
}

#[test]
fn comment_address_hashes_the_text() {
    let author = Address::new([3u8; 32]);
    let tweet = Address::new([4u8; 32]);
    let program = Pubkey::new_from_array(ID);
    let digest = hash(b"nice one").to_bytes();
    assert_ne!(&digest[..8], b"nice one");
    let expected = Pubkey::find_program_address(
        &[b"COMMENT_SEED", &[3u8; 32], &digest, &[4u8; 32]],
        &program,
    );
    let found = comment_address(&author, "nice one", &tweet).unwrap();
    assert_eq!(found.0.to_bytes(), expected.0.to_bytes());
    assert_eq!(found.1, expected.1);
}

#[test]
fn derivation_is_repeatable() {
    let author = Address::new([9u8; 32]);
    assert_eq!(tweet_address("rust", &author), tweet_address("rust", &author));
}

#[test]
fn derivation_tells_topics_and_authors_apart() {
    let one = Address::new([9u8; 32]);
    let other = Address::new([10u8; 32]);
    let first = tweet_address("rust", &one).unwrap();
    assert_ne!(first.0, tweet_address("verus", &one).unwrap().0);
    assert_ne!(first.0, tweet_address("rust", &other).unwrap().0);
}

#[test]
fn a_topic_that_fits_in_one_seed_keeps_the_address_of_that_seed() {
    let author = Address::new([9u8; 32]);
    let program = Pubkey::new_from_array(ID);
    for topic in ["", "a", "solana", &"a".repeat(31), &"a".repeat(32)] {
        let expected = Pubkey::find_program_address(
            &[topic.as_bytes(), b"TWEET_SEED", &[9u8; 32]],
            &program,
        );
        let found = tweet_address(topic, &author).unwrap();
        assert_eq!(found.0.to_bytes(), expected.0.to_bytes());
        assert_eq!(found.1, expected.1);
    }
}

#[test]
fn a_longer_topic_goes_into_two_seeds() {
    let author = Address::new([9u8; 32]);
    let program = Pubkey::new_from_array(ID);
    for length in [33usize, 40, 49, 50] {
        let topic: String = (0..length).map(|i| (b'a' + (i % 26) as u8) as char).collect();
        let bytes = topic.as_bytes();
        let expected = Pubkey::find_program_address(
            &[&bytes[..32], &bytes[32..], b"TWEET_SEED", &[9u8; 32]],
            &program,
        );
        let found = tweet_address(&topic, &author).unwrap();
        assert_eq!(found.0.to_bytes(), expected.0.to_bytes());
        assert_eq!(found.1, expected.1);
    }
}

#[test]
fn long_topics_that_differ_late_have_different_addresses() {
    let author = Address::new([9u8; 32]);
    let one = format!("{}x", "a".repeat(49));
    let other = format!("{}y", "a".repeat(49));
    let short = "a".repeat(32);
    let first = tweet_address(&one, &author).unwrap().0;
    assert_ne!(first, tweet_address(&other, &author).unwrap().0);
    assert_ne!(first, tweet_address(&short, &author).unwrap().0);
    assert_ne!(first, tweet_address(&"a".repeat(49), &author).unwrap().0);
}

#[test]
fn addresses_compare_by_their_bytes() {
    let mut bytes = [5u8; 32];
    let one = Address::new(bytes);
    assert_eq!(one, Address::new([5u8; 32]));
    bytes[31] = 6;
    assert_ne!(one, Address::new(bytes));
    bytes[31] = 5;
    bytes[0] = 6;
    assert_ne!(one, Address::new(bytes));
    assert_eq!(one.to_bytes(), [5u8; 32]);
    assert_eq!(one.to_seed(), vec![5u8; 32]);
}
