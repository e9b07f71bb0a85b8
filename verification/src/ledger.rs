//! The ledger: the records that live at derived addresses, and the balance
//! of every wallet.
//!
//! Only instructions change the records of a ledger. Each of them either
//! takes effect as a whole or leaves the ledger as it was.

use crate::address::{
    comment_address_spec, reaction_address_spec, tweet_address_spec, Address,
};
use crate::errors::{Error, LedgerError};
use crate::states::{Comment, Reaction, ReactionType, Record, Tweet};
use crate::table::Table;
use vstd::prelude::*;

verus! {

/// An identity of which the host has checked that it signed the request.
#[derive(Clone, Copy, Debug)]
pub struct Signer {
    key: Address,
}

impl Signer {
    /// The address that signed.
    pub closed spec fn address(&self) -> Address {
        self.key
    }

    /// States that `key` signed the request at hand.
    pub fn new(key: Address) -> (signer: Signer)
        ensures
            signer.address() == key,
    {
        Signer { key }
    }

    /// The address that signed.
    #[verifier::when_used_as_spec(address)]
    pub fn key(&self) -> (key: Address)
        ensures
            key == self.address(),
    {
        self.key
    }
}

/// Whether the record at `key` is a reaction of the kind `reaction` to the
/// tweet at `tweet`.
pub open spec fn reacts(
    records: Map<Address, Record>,
    key: Address,
    tweet: Address,
    reaction: ReactionType,
) -> bool {
    match records[key] {
        Record::Reaction(kept) => kept.parent_tweet == tweet && kept.reaction == reaction,
        _ => false,
    }
}

/// The addresses of the reactions of the kind `reaction` to the tweet at `tweet`.
pub open spec fn reactions_to(
    records: Map<Address, Record>,
    tweet: Address,
    reaction: ReactionType,
) -> Set<Address> {
    records.dom().filter(|key: Address| reacts(records, key, tweet, reaction))
}

/// Putting a record that is no reaction where no reaction was leaves every
/// tweet its reactions.
pub proof fn lemma_put_other(
    records: Map<Address, Record>,
    key: Address,
    record: Record,
    tweet: Address,
    reaction: ReactionType,
)
    requires
        !(record is Reaction),
        records.dom().contains(key) ==> !(records[key] is Reaction),
    ensures
        reactions_to(records.insert(key, record), tweet, reaction) == reactions_to(
            records,
            tweet,
            reaction,
        ),
{
    assert(reactions_to(records.insert(key, record), tweet, reaction) =~= reactions_to(
        records,
        tweet,
        reaction,
    ));
}

/// Putting a reaction at a free address gives it to its tweet, under its kind.
pub proof fn lemma_put_reaction(
    records: Map<Address, Record>,
    key: Address,
    kept: Reaction,
    tweet: Address,
    reaction: ReactionType,
)
    requires
        !records.dom().contains(key),
    ensures
        kept.parent_tweet == tweet && kept.reaction == reaction ==> reactions_to(
            records.insert(key, Record::Reaction(kept)),
            tweet,
            reaction,
        ) == reactions_to(records, tweet, reaction).insert(key),
        !(kept.parent_tweet == tweet && kept.reaction == reaction) ==> reactions_to(
            records.insert(key, Record::Reaction(kept)),
            tweet,
            reaction,
        ) == reactions_to(records, tweet, reaction),
        !reactions_to(records, tweet, reaction).contains(key),
{
    let after = records.insert(key, Record::Reaction(kept));
    if kept.parent_tweet == tweet && kept.reaction == reaction {
        assert(reactions_to(after, tweet, reaction) =~= reactions_to(
            records,
            tweet,
            reaction,
        ).insert(key));
    } else {
        assert(reactions_to(after, tweet, reaction) =~= reactions_to(records, tweet, reaction));
    }
}

/// Taking out what is no reaction leaves every tweet its reactions.
pub proof fn lemma_take_other(
    records: Map<Address, Record>,
    key: Address,
    tweet: Address,
    reaction: ReactionType,
)
    requires
        records.dom().contains(key) ==> !(records[key] is Reaction),
    ensures
        reactions_to(records.remove(key), tweet, reaction) == reactions_to(records, tweet, reaction),
{
    assert(reactions_to(records.remove(key), tweet, reaction) =~= reactions_to(
        records,
        tweet,
        reaction,
    ));
}

/// Taking a reaction out takes it from its tweet, under its kind.
pub proof fn lemma_take_reaction(
    records: Map<Address, Record>,
    key: Address,
    tweet: Address,
    reaction: ReactionType,
)
    requires
        records.dom().contains(key),
        records[key] is Reaction,
    ensures
        reacts(records, key, tweet, reaction) ==> reactions_to(
            records.remove(key),
            tweet,
            reaction,
        ) == reactions_to(records, tweet, reaction).remove(key),
        !reacts(records, key, tweet, reaction) ==> reactions_to(
            records.remove(key),
            tweet,
            reaction,
        ) == reactions_to(records, tweet, reaction),
        reacts(records, key, tweet, reaction) == reactions_to(records, tweet, reaction).contains(
            key,
        ),
{
    if reacts(records, key, tweet, reaction) {
        assert(reactions_to(records.remove(key), tweet, reaction) =~= reactions_to(
            records,
            tweet,
            reaction,
        ).remove(key));
    } else {
        assert(reactions_to(records.remove(key), tweet, reaction) =~= reactions_to(
            records,
            tweet,
            reaction,
        ));
    }
}

/// What a ledger holds: a record at some addresses, a balance at every address.
pub ghost struct LedgerView {
    pub records: Map<Address, Record>,
    pub balances: Map<Address, u64>,
}

impl LedgerView {
    /// Whether a tweet lives at `key`.
    pub open spec fn holds_tweet(self, key: Address) -> bool {
        self.records.dom().contains(key) && self.records[key] is Tweet
    }

    /// Whether a comment lives at `key`.
    pub open spec fn holds_comment(self, key: Address) -> bool {
        self.records.dom().contains(key) && self.records[key] is Comment
    }

    /// Whether a reaction lives at `key`.
    pub open spec fn holds_reaction(self, key: Address) -> bool {
        self.records.dom().contains(key) && self.records[key] is Reaction
    }

    /// The tweet at `key`, where one lives there.
    pub open spec fn tweet(self, key: Address) -> Tweet {
        self.records[key]->Tweet_0
    }

    /// The comment at `key`, where one lives there.
    pub open spec fn comment(self, key: Address) -> Comment {
        self.records[key]->Comment_0
    }

    /// The reaction at `key`, where one lives there.
    pub open spec fn reaction(self, key: Address) -> Reaction {
        self.records[key]->Reaction_0
    }

    /// The record at `key` is within its limits. A tweet has as many likes
    /// and dislikes as the ledger holds reactions to it of each kind; a
    /// comment or a reaction is about a tweet of this ledger.
    pub open spec fn well_kept(self, key: Address) -> bool {
        match self.records[key] {
            Record::Tweet(tweet) => {
                &&& tweet.within_limits()
                &&& tweet.likes == reactions_to(self.records, key, ReactionType::Like).len()
                &&& tweet.dislikes == reactions_to(self.records, key, ReactionType::Dislike).len()
            },
            Record::Comment(comment) => comment.within_limits() && self.holds_tweet(
                comment.parent_tweet,
            ),
            Record::Reaction(reaction) => self.holds_tweet(reaction.parent_tweet),
        }
    }

    /// The records are finitely many, and every one of them is well kept.
    pub open spec fn sound(self) -> bool {
        &&& self.records.dom().finite()
        &&& forall|key: Address| #[trigger]
            self.records.dom().contains(key) ==> self.well_kept(key)
    }

    /// The record at `key` lives at the address that its own fields derive,
    /// and holds the bump of that address.
    pub open spec fn in_place(self, key: Address) -> bool {
        match self.records[key] {
            Record::Tweet(tweet) => tweet_address_spec(tweet.topic@, tweet.tweet_author) == Some(
                (key, tweet.bump),
            ),
            Record::Comment(comment) => comment_address_spec(
                comment.comment_author,
                comment.content@,
                comment.parent_tweet,
            ) == Some((key, comment.bump)),
            Record::Reaction(reaction) => reaction_address_spec(
                reaction.reaction_author,
                reaction.parent_tweet,
            ) == Some((key, reaction.bump)),
        }
    }

    /// Every record is in place.
    pub open spec fn addressed(self) -> bool {
        forall|key: Address| #[trigger] self.records.dom().contains(key) ==> self.in_place(key)
    }

    /// The ledger with `record` at `key`.
    pub open spec fn with_record(self, key: Address, record: Record) -> LedgerView {
        LedgerView { records: self.records.insert(key, record), ..self }
    }

    /// The ledger with nothing at `key`.
    pub open spec fn without_record(self, key: Address) -> LedgerView {
        LedgerView { records: self.records.remove(key), ..self }
    }

    /// The ledger with other balances.
    pub open spec fn with_balances(self, balances: Map<Address, u64>) -> LedgerView {
        LedgerView { balances, ..self }
    }
}

/// Whether an instruction did what its outcome says: where the outcome is a
/// ledger, the instruction succeeded and left that ledger; where the outcome
/// is an error, the instruction was refused with that error and left the
/// ledger as it was.
pub open spec fn follows(
    outcome: Result<LedgerView, Error>,
    before: LedgerView,
    after: LedgerView,
    done: Result<(), Error>,
) -> bool {
    match outcome {
        Ok(next) => done is Ok && after == next,
        Err(error) => done == Err::<(), Error>(error) && after == before,
    }
}

/// Whether a transfer did what its outcome says: where the outcome is a
/// table of balances, the transfer succeeded and left those balances and
/// every record; where it is an error, the transfer was refused with that
/// error and left the ledger as it was.
pub open spec fn follows_transfer(
    outcome: Result<Map<Address, u64>, LedgerError>,
    before: LedgerView,
    after: LedgerView,
    done: Result<(), LedgerError>,
) -> bool {
    match outcome {
        Ok(balances) => done is Ok && after == before.with_balances(balances),
        Err(error) => done == Err::<(), LedgerError>(error) && after == before,
    }
}

/// The balances after `lamports` have moved from `from` to `to`, or why they
/// cannot move.
pub open spec fn transfer_spec(
    balances: Map<Address, u64>,
    from: Address,
    to: Address,
    lamports: u64,
) -> Result<Map<Address, u64>, LedgerError> {
    if balances[from] < lamports {
        Err(LedgerError::InsufficientFunds)
    } else if from == to {
        Ok(balances)
    } else if balances[to] + lamports > u64::MAX {
        Err(LedgerError::BalanceOverflow)
    } else {
        Ok(
            balances.insert(from, (balances[from] - lamports) as u64).insert(
                to,
                (balances[to] + lamports) as u64,
            ),
        )
    }
}

/// The balances after `lamports` that had moved from `from` to `to` have gone back.
pub open spec fn refund_spec(
    balances: Map<Address, u64>,
    from: Address,
    to: Address,
    lamports: u64,
) -> Map<Address, u64> {
    if from == to {
        balances
    } else {
        balances.insert(to, (balances[to] - lamports) as u64).insert(
            from,
            (balances[from] + lamports) as u64,
        )
    }
}

/// A refund undoes the transfer that it follows.
pub proof fn lemma_refund_undoes_transfer(
    balances: Map<Address, u64>,
    from: Address,
    to: Address,
    lamports: u64,
)
    requires
        balances.dom().contains(from),
        balances.dom().contains(to),
        transfer_spec(balances, from, to, lamports) is Ok,
    ensures
        from != to ==> transfer_spec(balances, from, to, lamports)->Ok_0[to] >= lamports,
        from != to ==> transfer_spec(balances, from, to, lamports)->Ok_0[from] + lamports
            <= u64::MAX,
        refund_spec(transfer_spec(balances, from, to, lamports)->Ok_0, from, to, lamports)
            == balances,
{
    let moved = transfer_spec(balances, from, to, lamports)->Ok_0;
    assert(refund_spec(moved, from, to, lamports) =~= balances);
}

/// The records and the balances, each in a table of its own.
pub struct Ledger {
    records: Table<Record>,
    balances: Table<u64>,
}

impl View for Ledger {
    type V = LedgerView;

    closed spec fn view(&self) -> LedgerView {
        LedgerView {
            records: self.records@,
            balances: Map::total(
                |key: Address|
                    if self.balances@.dom().contains(key) {
                        self.balances@[key]
                    } else {
                        0u64
                    },
            ),
        }
    }
}

impl Ledger {
    /// No address occurs twice in the tables of the ledger.
    pub closed spec fn indexed(&self) -> bool {
        self.records.wf() && self.balances.wf()
    }

    /// The ledger is well formed: its tables are, and every record is well kept.
    pub open spec fn wf(&self) -> bool {
        self.indexed() && self@.sound()
    }

    /// A ledger without records, in which every balance is zero.
    pub fn new() -> (ledger: Ledger)
        ensures
            ledger.wf(),
            ledger@.addressed(),
            ledger@.records == Map::<Address, Record>::empty(),
            forall|key: Address| ledger@.balances[key] == 0,
            forall|key: Address| ledger@.balances.dom().contains(key),
    {
        Ledger { records: Table::new(), balances: Table::new() }
    }

    /// Every address has a balance.
    pub proof fn lemma_balances_total(&self)
        ensures
            forall|key: Address| self@.balances.dom().contains(key),
    {
    }

    /// The record at `key`, if there is one.
    pub fn record(&self, key: &Address) -> (found: Option<&Record>)
        requires
            self.indexed(),
        ensures
            (found is Some) == self@.records.dom().contains(*key),
            found matches Some(record) ==> *record == self@.records[*key],
    {
        self.records.get(key)
    }

    /// Whether a record lives at `key`.
    pub fn is_occupied(&self, key: &Address) -> (held: bool)
        requires
            self.indexed(),
        ensures
            held == self@.records.dom().contains(*key),
    {
        self.records.contains(key)
    }

    /// The tweet at `key`, if one lives there.
    pub fn tweet(&self, key: &Address) -> (found: Option<&Tweet>)
        requires
            self.indexed(),
        ensures
            (found is Some) == self@.holds_tweet(*key),
            found matches Some(tweet) ==> *tweet == self@.tweet(*key),
    {
        match self.records.get(key) {
            Some(Record::Tweet(tweet)) => Some(tweet),
            _ => None,
        }
    }

    /// The comment at `key`, if one lives there.
    pub fn comment(&self, key: &Address) -> (found: Option<&Comment>)
        requires
            self.indexed(),
        ensures
            (found is Some) == self@.holds_comment(*key),
            found matches Some(comment) ==> *comment == self@.comment(*key),
    {
        match self.records.get(key) {
            Some(Record::Comment(comment)) => Some(comment),
            _ => None,
        }
    }

    /// The reaction at `key`, if one lives there.
    pub fn reaction(&self, key: &Address) -> (found: Option<&Reaction>)
        requires
            self.indexed(),
        ensures
            (found is Some) == self@.holds_reaction(*key),
            found matches Some(reaction) ==> *reaction == self@.reaction(*key),
    {
        match self.records.get(key) {
            Some(Record::Reaction(reaction)) => Some(reaction),
            _ => None,
        }
    }

    /// What the wallet at `key` holds.
    pub fn balance(&self, key: &Address) -> (lamports: u64)
        requires
            self.indexed(),
        ensures
            lamports == self@.balances[*key],
    {
        match self.balances.get(key) {
            Some(lamports) => *lamports,
            None => 0,
        }
    }

    /// Sets the balance of one wallet.
    fn set_balance(&mut self, key: Address, lamports: u64)
        requires
            old(self).indexed(),
        ensures
            final(self).indexed(),
            final(self)@ == old(self)@.with_balances(old(self)@.balances.insert(key, lamports)),
    {
        self.balances.put(key, lamports);
        assert(self@.balances =~= old(self)@.balances.insert(key, lamports));
    }

    /// Pays `lamports` into the wallet at `key`, from outside the ledger.
    pub fn deposit(&mut self, key: &Address, lamports: u64) -> (done: Result<(), LedgerError>)
        requires
            old(self).indexed(),
        ensures
            final(self).indexed(),
            old(self).wf() ==> final(self).wf(),
            old(self)@.balances[*key] + lamports <= u64::MAX ==> done is Ok && final(self)@
                == old(self)@.with_balances(
                old(self)@.balances.insert(*key, (old(self)@.balances[*key] + lamports) as u64),
            ),
            old(self)@.balances[*key] + lamports > u64::MAX ==> done == Err::<(), LedgerError>(
                LedgerError::BalanceOverflow,
            ) && final(self)@ == old(self)@,
    {
        match self.balance(key).checked_add(lamports) {
            Some(sum) => {
                self.set_balance(*key, sum);
                Ok(())
            },
            None => Err(LedgerError::BalanceOverflow),
        }
    }

    /// Moves `lamports` from one wallet to another, or changes nothing.
    pub(crate) fn move_lamports(&mut self, from: &Address, to: &Address, lamports: u64) -> (done:
        Result<(), LedgerError>)
        requires
            old(self).indexed(),
        ensures
            final(self).indexed(),
            follows_transfer(
                transfer_spec(old(self)@.balances, *from, *to, lamports),
                old(self)@,
                final(self)@,
                done,
            ),
    {
        let held = self.balance(from);
        if held < lamports {
            return Err(LedgerError::InsufficientFunds);
        }
        if *from == *to {
            assert(self@ == old(self)@.with_balances(old(self)@.balances));
            return Ok(());
        }
        match self.balance(to).checked_add(lamports) {
            Some(sum) => {
                self.set_balance(*from, held - lamports);
                self.set_balance(*to, sum);
                Ok(())
            },
            None => Err(LedgerError::BalanceOverflow),
        }
    }

    /// Gives back `lamports` that `move_lamports` has moved from `from` to `to`.
    pub(crate) fn return_lamports(&mut self, from: &Address, to: &Address, lamports: u64)
        requires
            old(self).indexed(),
            *from != *to ==> old(self)@.balances[*to] >= lamports,
            *from != *to ==> old(self)@.balances[*from] + lamports <= u64::MAX,
        ensures
            final(self).indexed(),
            final(self)@ == old(self)@.with_balances(
                refund_spec(old(self)@.balances, *from, *to, lamports),
            ),
    {
        if *from == *to {
            assert(self@ == old(self)@.with_balances(old(self)@.balances));
        } else {
            let held = self.balance(to);
            let owed = self.balance(from);
            self.set_balance(*to, held - lamports);
            self.set_balance(*from, owed + lamports);
        }
    }

    /// Moves `lamports` from the signer's wallet to the wallet at `to`. Nothing
    /// moves when the signer holds less, or the receiver would hold too much.
    pub fn transfer(&mut self, from: &Signer, to: &Address, lamports: u64) -> (done: Result<
        (),
        LedgerError,
    >)
        requires
            old(self).indexed(),
        ensures
            final(self).indexed(),
            old(self).wf() ==> final(self).wf(),
            follows_transfer(
                transfer_spec(old(self)@.balances, from.address(), *to, lamports),
                old(self)@,
                final(self)@,
                done,
            ),
    {
        let payer = from.key();
        self.move_lamports(&payer, to, lamports)
    }

    /// Puts `record` at `key`, in place of what was there.
    pub(crate) fn put_record(&mut self, key: Address, record: Record)
        requires
            old(self).indexed(),
        ensures
            final(self).indexed(),
            final(self)@ == old(self)@.with_record(key, record),
    {
        self.records.put(key, record);
    }

    /// Takes out what is at `key`.
    pub(crate) fn take_record(&mut self, key: &Address)
        requires
            old(self).indexed(),
        ensures
            final(self).indexed(),
            final(self)@ == old(self)@.without_record(*key),
    {
        let _ = self.records.take(key);
    }
}

} // verus!
