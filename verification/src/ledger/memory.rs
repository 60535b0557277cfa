//! The ledger model held in memory.

use crate::key::Key;
use crate::ledger::{LedgerState, TokenError};
use crate::token::TokenInstruction;
use vstd::prelude::*;

verus! {

/// One line of a book: a key and the units held under it.
#[derive(Clone, Copy, Debug)]
struct Entry {
    key: Key,
    units: u64,
}

/// The units that `entries` hold under `key`: those of the first line
/// with that key, and zero where there is none.
spec fn units_of(entries: Seq<Entry>, key: Key) -> u64
    decreases entries.len(),
{
    if entries.len() == 0 {
        0
    } else if entries.first().key == key {
        entries.first().units
    } else {
        units_of(entries.drop_first(), key)
    }
}

/// Whether no line before the `i`-th has the key `key`.
spec fn none_before(entries: Seq<Entry>, key: Key, i: int) -> bool {
    forall|j: int| 0 <= j < i && j < entries.len() ==> (#[trigger] entries[j]).key != key
}

/// The first line under `key` says what is held under it.
proof fn units_of_first_match(entries: Seq<Entry>, key: Key, i: int)
    requires
        0 <= i < entries.len(),
        entries[i].key == key,
        none_before(entries, key, i),
    ensures
        units_of(entries, key) == entries[i].units,
    decreases i,
{
    if i > 0 {
        assert(entries[0].key != key);
        let rest = entries.drop_first();
        assert forall|j: int| 0 <= j < i - 1 && j < rest.len() implies (#[trigger] rest[j]).key
            != key by {
            assert(rest[j] == entries[j + 1]);
        }
        units_of_first_match(rest, key, i - 1);
    }
}

/// Nothing is held under a key that no line has.
proof fn units_of_absent(entries: Seq<Entry>, key: Key)
    requires
        none_before(entries, key, entries.len() as int),
    ensures
        units_of(entries, key) == 0,
    decreases entries.len(),
{
    if entries.len() > 0 {
        assert(entries[0].key != key);
        let rest = entries.drop_first();
        assert forall|j: int| 0 <= j < rest.len() implies (#[trigger] rest[j]).key != key by {
            assert(rest[j] == entries[j + 1]);
        }
        units_of_absent(rest, key);
    }
}

/// Lines under other keys do not matter to what is held under `key`.
proof fn units_of_same_lines(a: Seq<Entry>, b: Seq<Entry>, key: Key)
    requires
        a.len() == b.len(),
        forall|j: int| 0 <= j < a.len() ==> (#[trigger] a[j]).key == b[j].key,
        forall|j: int| 0 <= j < a.len() && (#[trigger] a[j]).key == key ==> a[j] == b[j],
    ensures
        units_of(a, key) == units_of(b, key),
    decreases a.len(),
{
    if a.len() > 0 {
        assert(a[0].key == b[0].key);
        if a[0].key != key {
            let ra = a.drop_first();
            let rb = b.drop_first();
            assert forall|j: int| 0 <= j < ra.len() implies (#[trigger] ra[j]).key
                == rb[j].key by {
                assert(ra[j] == a[j + 1]);
                assert(rb[j] == b[j + 1]);
            }
            assert forall|j: int| 0 <= j < ra.len() && (#[trigger] ra[j]).key == key implies ra[j]
                == rb[j] by {
                assert(ra[j] == a[j + 1]);
                assert(rb[j] == b[j + 1]);
            }
            units_of_same_lines(ra, rb, key);
        }
    }
}

/// A new line at the end matters only to its own key, and to that only
/// where no earlier line has it.
proof fn units_of_push(entries: Seq<Entry>, line: Entry, key: Key)
    ensures
        key != line.key ==> units_of(entries.push(line), key) == units_of(entries, key),
        key == line.key && none_before(entries, key, entries.len() as int) ==> units_of(
            entries.push(line),
            key,
        ) == line.units,
    decreases entries.len(),
{
    let longer = entries.push(line);
    if key == line.key {
        if none_before(entries, key, entries.len() as int) {
            assert forall|j: int| 0 <= j < entries.len() && j < longer.len() implies (
            #[trigger] longer[j]).key != key by {
                assert(longer[j] == entries[j]);
            }
            units_of_first_match(longer, key, entries.len() as int);
        }
    } else if entries.len() == 0 {
        assert(longer.drop_first().len() == 0);
        assert(units_of(longer.drop_first(), key) == 0);
    } else {
        assert(longer.first() == entries.first());
        assert(longer.drop_first() =~= entries.drop_first().push(line));
        units_of_push(entries.drop_first(), line, key);
    }
}

/// Units held under keys; a key without a line holds zero.
#[derive(Debug)]
struct Book {
    entries: Vec<Entry>,
}

impl Book {
    /// The units held under each key.
    spec fn holdings(&self) -> Map<Key, u64> {
        Map::total(|key: Key| units_of(self.entries@, key))
    }

    /// A book without lines.
    fn new() -> (book: Book)
        ensures
            book.holdings() == Map::total(|key: Key| 0u64),
    {
        let book = Book { entries: Vec::new() };
        assert(book.holdings() =~= Map::total(|key: Key| 0u64));
        book
    }

    /// The index of the first line under `key`.
    fn find(&self, key: &Key) -> (found: Option<usize>)
        ensures
            match found {
                Some(i) => i < self.entries@.len() && self.entries@[i as int].key == *key
                    && none_before(self.entries@, *key, i as int),
                None => none_before(self.entries@, *key, self.entries@.len() as int),
            },
    {
        let mut i: usize = 0;
        while i < self.entries.len()
            invariant
                i <= self.entries@.len(),
                none_before(self.entries@, *key, i as int),
            decreases self.entries@.len() - i,
        {
            if self.entries[i].key == *key {
                return Some(i);
            }
            i += 1;
        }
        None
    }

    /// The units held under `key`.
    fn get(&self, key: &Key) -> (units: u64)
        ensures
            units == self.holdings()[*key],
    {
        match self.find(key) {
            Some(i) => {
                proof {
                    units_of_first_match(self.entries@, *key, i as int);
                }
                self.entries[i].units
            },
            None => {
                proof {
                    units_of_absent(self.entries@, *key);
                }
                0
            },
        }
    }

    /// Writes `units` under `key`: into its first line, or into a new
    /// line where it has none.
    fn set(&mut self, key: Key, units: u64)
        ensures
            final(self).holdings() == old(self).holdings().insert(key, units),
    {
        let line = Entry { key, units };
        match self.find(&key) {
            Some(i) => {
                self.entries.set(i, line);
                proof {
                    let before = old(self).entries@;
                    let after = self.entries@;
                    assert forall|j: int| 0 <= j < i && j < after.len() implies (
                    #[trigger] after[j]).key != key by {
                        assert(after[j] == before[j]);
                    }
                    units_of_first_match(after, key, i as int);
                    assert forall|other: Key| other != key implies units_of(after, other)
                        == units_of(before, other) by {
                        units_of_same_lines(before, after, other);
                    }
                }
            },
            None => {
                self.entries.push(line);
                proof {
                    let before = old(self).entries@;
                    assert forall|other: Key|
                        units_of(before.push(line), other) == (if other == key {
                            units
                        } else {
                            units_of(before, other)
                        }) by {
                        units_of_push(before, line, other);
                    }
                }
            },
        }
        assert(self.holdings() =~= old(self).holdings().insert(key, units));
    }

    /// A second book with the same lines.
    fn duplicate(&self) -> (copy: Book)
        ensures
            copy.holdings() == self.holdings(),
    {
        let mut entries: Vec<Entry> = Vec::new();
        let mut i: usize = 0;
        while i < self.entries.len()
            invariant
                i <= self.entries@.len(),
                entries@ == self.entries@.subrange(0, i as int),
            decreases self.entries@.len() - i,
        {
            entries.push(self.entries[i]);
            assert(entries@ =~= self.entries@.subrange(0, i + 1));
            i += 1;
        }
        assert(entries@ =~= self.entries@);
        Book { entries }
    }
}

/// A token ledger held in memory.
#[derive(Debug)]
pub struct TokenLedger {
    balances: Book,
    supply: Book,
}

impl View for TokenLedger {
    type V = LedgerState;

    closed spec fn view(&self) -> LedgerState {
        LedgerState { balances: self.balances.holdings(), supply: self.supply.holdings() }
    }
}

impl TokenLedger {
    /// Every ledger keeps a balance for every account and a supply for
    /// every token type.
    pub proof fn view_is_total(&self)
        ensures
            self@.total(),
    {
        assert(self@.balances.dom() =~= Set::<Key>::full());
        assert(self@.supply.dom() =~= Set::<Key>::full());
    }

    /// A ledger on which nothing has been created yet.
    pub fn new() -> (ledger: TokenLedger)
        ensures
            ledger@ == LedgerState::empty(),
    {
        TokenLedger { balances: Book::new(), supply: Book::new() }
    }

    /// The units that the token account `account` holds.
    pub fn balance(&self, account: &Key) -> (units: u64)
        ensures
            units == self@.balances[*account],
    {
        self.balances.get(account)
    }

    /// The units of the token type `mint` that exist.
    pub fn supply(&self, mint: &Key) -> (units: u64)
        ensures
            units == self@.supply[*mint],
    {
        self.supply.get(mint)
    }

    /// Carries out one instruction, or refuses it and changes nothing.
    pub fn process(&mut self, instruction: &TokenInstruction) -> (done: Result<(), TokenError>)
        ensures
            match old(self)@.apply(*instruction) {
                Ok(next) => done is Ok && final(self)@ == next,
                Err(refusal) => done == Err::<(), TokenError>(refusal) && final(self)@ == old(
                    self,
                )@,
            },
    {
        match instruction {
            TokenInstruction::MintTo { accounts, amount, .. } => {
                let supply: u64 = self.supply.get(&accounts.mint);
                let balance: u64 = self.balances.get(&accounts.to);
                let new_supply: u64 = match supply.checked_add(*amount) {
                    Some(sum) => sum,
                    None => {
                        return Err(TokenError::Overflow);
                    },
                };
                let new_balance: u64 = match balance.checked_add(*amount) {
                    Some(sum) => sum,
                    None => {
                        return Err(TokenError::Overflow);
                    },
                };
                self.supply.set(accounts.mint, new_supply);
                self.balances.set(accounts.to, new_balance);
                Ok(())
            },
            TokenInstruction::Burn { accounts, amount, .. } => {
                let supply: u64 = self.supply.get(&accounts.mint);
                let balance: u64 = self.balances.get(&accounts.from);
                if balance < *amount || supply < *amount {
                    return Err(TokenError::InsufficientFunds);
                }
                self.supply.set(accounts.mint, supply - *amount);
                self.balances.set(accounts.from, balance - *amount);
                Ok(())
            },
            TokenInstruction::Transfer { accounts, amount, .. } => {
                let held: u64 = self.balances.get(&accounts.from);
                if held < *amount {
                    return Err(TokenError::InsufficientFunds);
                }
                if accounts.from == accounts.to {
                    return Ok(());
                }
                let target: u64 = self.balances.get(&accounts.to);
                let raised: u64 = match target.checked_add(*amount) {
                    Some(sum) => sum,
                    None => {
                        return Err(TokenError::Overflow);
                    },
                };
                self.balances.set(accounts.from, held - *amount);
                self.balances.set(accounts.to, raised);
                Ok(())
            },
        }
    }

    /// Carries out the instructions of `plan` in order, all of them or,
    /// where one is refused, none.
    pub fn process_all(&mut self, plan: &Vec<TokenInstruction>) -> (done: Result<(), TokenError>)
        ensures
            match old(self)@.apply_all(plan@) {
                Ok(last) => done is Ok && final(self)@ == last,
                Err(refusal) => done == Err::<(), TokenError>(refusal) && final(self)@ == old(
                    self,
                )@,
            },
    {
        let mut trial = TokenLedger {
            balances: self.balances.duplicate(),
            supply: self.supply.duplicate(),
        };
        let ghost whole = self@.apply_all(plan@);
        let mut i: usize = 0;
        assert(plan@.subrange(0, plan@.len() as int) =~= plan@);
        while i < plan.len()
            invariant
                i <= plan@.len(),
                self@ == old(self)@,
                whole == old(self)@.apply_all(plan@),
                whole == trial@.apply_all(plan@.subrange(i as int, plan@.len() as int)),
            decreases plan@.len() - i,
        {
            let ghost rest = plan@.subrange(i as int, plan@.len() as int);
            assert(rest.first() == plan@[i as int]);
            assert(rest.drop_first() =~= plan@.subrange(i + 1, plan@.len() as int));
            match trial.process(&plan[i]) {
                Ok(()) => {},
                Err(refusal) => {
                    return Err(refusal);
                },
            }
            i += 1;
        }
        *self = trial;
        Ok(())
    }
}

} // verus!
