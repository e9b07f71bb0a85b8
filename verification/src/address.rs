//! Addresses of accounts, and how the address of a record follows from its seeds.
//!
//! A record is not looked up through an index: its address is derived from a
//! short list of byte strings (its seeds) and the program's own id, together
//! with a one-byte bump that makes the address one no key pair can sign for.
//! A seed holds at most `MAX_SEED_LEN` bytes, so a topic, which may be
//! longer, is handed over in two seeds.

use anchor_lang::solana_program::hash::hash;
use anchor_lang::solana_program::pubkey::Pubkey;
use vstd::prelude::*;
use vstd::slice::{slice_subrange, slice_to_vec};
use vstd::utf8::encode_utf8;

verus! {

/// Longest seed that a derivation accepts, in bytes.
pub const MAX_SEED_LEN: usize = 32;

/// The program's id, `47ofz98ZHkDxec7pBjBqPwq2VqhpK4h1BDhLa8h7zZWb`.
pub const ID: [u8; 32] = [
    46, 81, 81, 105, 43, 158, 80, 212, 23, 163, 24, 40, 255, 46, 223, 31,
    254, 2, 230, 44, 62, 202, 189, 13, 68, 249, 113, 77, 26, 36, 214, 188,
];

/// Tag in the seeds of a tweet.
pub const TWEET_SEED: &'static str = "TWEET_SEED";

/// Tag in the seeds of a reaction.
pub const TWEET_REACTION_SEED: &'static str = "TWEET_REACTION_SEED";

/// Tag in the seeds of a comment.
pub const COMMENT_SEED: &'static str = "COMMENT_SEED";

/// The key of an account: of a wallet, or of a record held by the ledger.
#[derive(Clone, Copy, Debug)]
pub struct Address {
    pub bytes: [u8; 32],
}

impl PartialEq for Address {
    fn eq(&self, other: &Self) -> (same: bool) {
        let mut i: usize = 0;
        while i < 32
            invariant
                i <= 32,
                forall|j: int| 0 <= j < i ==> self.bytes@[j] == other.bytes@[j],
            decreases 32 - i,
        {
            if self.bytes[i] != other.bytes[i] {
                return false;
            }
            i = i + 1;
        }
        assert(self.bytes =~= other.bytes);
        true
    }
}

impl Eq for Address {

}

impl vstd::std_specs::cmp::PartialEqSpecImpl for Address {
    open spec fn obeys_eq_spec() -> bool {
        true
    }

    open spec fn eq_spec(&self, other: &Self) -> bool {
        *self == *other
    }
}

impl View for Address {
    type V = Seq<u8>;

    open spec fn view(&self) -> Seq<u8> {
        self.bytes@
    }
}

impl Address {
    /// The address with these bytes.
    pub fn new(bytes: [u8; 32]) -> (address: Address)
        ensures
            address.bytes == bytes,
    {
        Address { bytes }
    }

    /// The bytes of the address.
    pub fn to_bytes(&self) -> (bytes: [u8; 32])
        ensures
            bytes == self.bytes,
    {
        self.bytes
    }

    /// The address as a seed of a derivation.
    pub fn to_seed(&self) -> (seed: Vec<u8>)
        ensures
            seed@ == self@,
    {
        slice_to_vec(self.bytes.as_slice())
    }
}

/// The address of the program itself.
pub open spec fn program_id() -> Address {
    Address { bytes: ID }
}

/// The address of the program itself.
#[verifier::when_used_as_spec(program_id)]
pub fn id() -> (address: Address)
    ensures
        address == program_id(),
{
    Address { bytes: ID }
}

/// The bytes of each seed of a list.
pub open spec fn seed_bytes(seeds: Seq<Vec<u8>>) -> Seq<Seq<u8>> {
    Seq::new(seeds.len(), |i: int| seeds[i]@)
}

/// The address and bump that `Pubkey::try_find_program_address` finds for
/// `seeds` under the program `program_id`, if it finds one.
pub uninterp spec fn program_address(seeds: Seq<Seq<u8>>, program_id: Address) -> Option<
    (Address, u8),
>;

/// The SHA-256 digest of `data`, as `solana_program::hash::hash` computes it.
pub uninterp spec fn sha256(data: Seq<u8>) -> Seq<u8>;

/// Calls `Pubkey::try_find_program_address`. The result is a function of the
/// seeds and the program id alone, named `program_address`.
#[verifier::external_body]
fn try_find_program_address(seeds: &Vec<Vec<u8>>, program_id: &Address) -> (found: Option<
    (Address, u8),
>)
    ensures
        found == program_address(seed_bytes(seeds@), *program_id),
{
    let parts: Vec<&[u8]> = seeds.iter().map(|seed| seed.as_slice()).collect();
    let program = Pubkey::new_from_array(program_id.bytes);
    Pubkey::try_find_program_address(&parts, &program).map(
        |(key, bump)| (Address { bytes: key.to_bytes() }, bump),
    )
}

/// Calls `solana_program::hash::hash`, which returns the 32 bytes of the
/// SHA-256 digest of `data`.
#[verifier::external_body]
fn hash_bytes(data: &[u8]) -> (digest: [u8; 32])
    ensures
        digest@ == sha256(data@),
{
    hash(data).to_bytes()
}

/// How many bytes of a text go into its first seed: all of them, up to
/// `MAX_SEED_LEN`.
pub open spec fn head_len(bytes: Seq<u8>) -> int {
    if bytes.len() <= MAX_SEED_LEN {
        bytes.len() as int
    } else {
        MAX_SEED_LEN as int
    }
}

/// The first seed of a topic: its first `MAX_SEED_LEN` bytes, or all of it
/// where it has no more.
pub open spec fn topic_head(topic: Seq<char>) -> Seq<u8> {
    encode_utf8(topic).subrange(0, head_len(encode_utf8(topic)))
}

/// The second seed of a topic: the bytes that its first seed leaves.
pub open spec fn topic_tail(topic: Seq<char>) -> Seq<u8> {
    encode_utf8(topic).subrange(
        head_len(encode_utf8(topic)),
        encode_utf8(topic).len() as int,
    )
}

/// Seeds of the tweet that `author` opens on `topic`: the topic in its two
/// seeds, the tag, and the author.
pub open spec fn tweet_seeds(topic: Seq<char>, author: Address) -> Seq<Seq<u8>> {
    seq![topic_head(topic), topic_tail(topic), encode_utf8(TWEET_SEED@), author@]
}

/// Seeds of the reaction of `author` to the tweet at `tweet`.
pub open spec fn reaction_seeds(author: Address, tweet: Address) -> Seq<Seq<u8>> {
    seq![encode_utf8(TWEET_REACTION_SEED@), author@, tweet@]
}

/// Seeds of the comment with text `content` that `author` leaves on the tweet at `tweet`.
pub open spec fn comment_seeds(author: Address, content: Seq<char>, tweet: Address) -> Seq<
    Seq<u8>,
> {
    seq![encode_utf8(COMMENT_SEED@), author@, sha256(encode_utf8(content)), tweet@]
}

/// Address and bump of the tweet that `author` opens on `topic`.
pub open spec fn tweet_address_spec(topic: Seq<char>, author: Address) -> Option<(Address, u8)> {
    program_address(tweet_seeds(topic, author), program_id())
}

/// Address and bump of the reaction of `author` to the tweet at `tweet`.
pub open spec fn reaction_address_spec(author: Address, tweet: Address) -> Option<(Address, u8)> {
    program_address(reaction_seeds(author, tweet), program_id())
}

/// Address and bump of the comment `content` of `author` on the tweet at `tweet`.
pub open spec fn comment_address_spec(author: Address, content: Seq<char>, tweet: Address) -> Option<
    (Address, u8),
> {
    program_address(comment_seeds(author, content, tweet), program_id())
}

/// Derives the address of a tweet from its topic and its author.
pub fn tweet_address(topic: &str, author: &Address) -> (found: Option<(Address, u8)>)
    ensures
        found == tweet_address_spec(topic@, *author),
{
    let bytes = topic.as_bytes();
    let cut: usize = if bytes.len() <= MAX_SEED_LEN {
        bytes.len()
    } else {
        MAX_SEED_LEN
    };
    let mut seeds: Vec<Vec<u8>> = Vec::new();
    seeds.push(slice_to_vec(slice_subrange(bytes, 0, cut)));
    seeds.push(slice_to_vec(slice_subrange(bytes, cut, bytes.len())));
    seeds.push(slice_to_vec(TWEET_SEED.as_bytes()));
    seeds.push(author.to_seed());
    assert(seed_bytes(seeds@) =~= tweet_seeds(topic@, *author));
    try_find_program_address(&seeds, &id())
}

/// Derives the address of a reaction from its author and the tweet it is about.
pub fn reaction_address(author: &Address, tweet: &Address) -> (found: Option<(Address, u8)>)
    ensures
        found == reaction_address_spec(*author, *tweet),
{
    let mut seeds: Vec<Vec<u8>> = Vec::new();
    seeds.push(slice_to_vec(TWEET_REACTION_SEED.as_bytes()));
    seeds.push(author.to_seed());
    seeds.push(tweet.to_seed());
    assert(seed_bytes(seeds@) =~= reaction_seeds(*author, *tweet));
    try_find_program_address(&seeds, &id())
}

/// Derives the address of a comment from its author, its text and the tweet it is about.
pub fn comment_address(author: &Address, content: &str, tweet: &Address) -> (found: Option<
    (Address, u8),
>)
    ensures
        found == comment_address_spec(*author, content@, *tweet),
{
    let digest = hash_bytes(content.as_bytes());
    let mut seeds: Vec<Vec<u8>> = Vec::new();
    seeds.push(slice_to_vec(COMMENT_SEED.as_bytes()));
    seeds.push(author.to_seed());
    seeds.push(slice_to_vec(digest.as_slice()));
    seeds.push(tweet.to_seed());
    assert(seed_bytes(seeds@) =~= comment_seeds(*author, content@, *tweet));
    try_find_program_address(&seeds, &id())
}

} // verus!
