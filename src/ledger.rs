//! A model of the asset ledger the escrow moves value on: one balance per
//! `(owner, mint)` holding account, and an all-or-nothing transfer.
use crate::custody::{same_address, Address};
use crate::escrow::EscrowError;
use vstd::prelude::*;

verus! {

#[derive(Clone, Copy, Debug)]
struct Holding {
    owner: Address,
    mint: Address,
    amount: u64,
}

impl Holding {
    spec fn key(self) -> (Address, Address) {
        (self.owner, self.mint)
    }
}

pub struct TokenLedger {
    holdings: Vec<Holding>,
    balances: Ghost<Map<(Address, Address), u64>>,
}

impl View for TokenLedger {
    type V = Map<(Address, Address), u64>;

    closed spec fn view(&self) -> Self::V {
        self.balances@
    }
}

/// The balance of an account, zero when it is not open.
pub open spec fn balance(m: Map<(Address, Address), u64>, k: (Address, Address)) -> nat {
    if m.contains_key(k) {
        m[k] as nat
    } else {
        0
    }
}

/// The balances after `amount` of `mint` moves from `from` to `to`; the
/// destination account is opened when needed.
pub open spec fn transferred(
    m: Map<(Address, Address), u64>,
    from: Address,
    to: Address,
    mint: Address,
    amount: u64,
) -> Map<(Address, Address), u64> {
    let m1 = m.insert((from, mint), (m[(from, mint)] - amount) as u64);
    m1.insert((to, mint), (balance(m1, (to, mint)) + amount) as u64)
}

/// Which failure, if any, that transfer meets.
pub open spec fn transfer_check(
    m: Map<(Address, Address), u64>,
    from: Address,
    to: Address,
    mint: Address,
    amount: u64,
) -> Result<(), EscrowError> {
    if balance(m, (from, mint)) < amount || !m.contains_key((from, mint)) {
        Err(EscrowError::InsufficientFunds)
    } else if (from, mint) != (to, mint) && balance(m, (to, mint)) + amount > u64::MAX {
        Err(EscrowError::ArithmeticOverflow)
    } else {
        Ok(())
    }
}

impl TokenLedger {
    pub closed spec fn wf(&self) -> bool {
        &&& forall|i: int|
            0 <= i < self.holdings@.len() ==> {
                &&& self.balances@.contains_key(#[trigger] self.holdings@[i].key())
                &&& self.balances@[self.holdings@[i].key()] == self.holdings@[i].amount
            }
        &&& forall|k: (Address, Address)|
            #[trigger] self.balances@.contains_key(k) ==> exists|i: int|
                0 <= i < self.holdings@.len() && self.holdings@[i].key() == k
        &&& forall|i: int, j: int|
            0 <= i < j < self.holdings@.len() ==> self.holdings@[i].key()
                != self.holdings@[j].key()
    }

    pub fn new() -> (r: TokenLedger)
        ensures
            r.wf(),
            r@ == Map::<(Address, Address), u64>::empty(),
    {
        TokenLedger { holdings: Vec::new(), balances: Ghost(Map::empty()) }
    }

    fn find(&self, owner: &Address, mint: &Address) -> (r: Option<usize>)
        requires
            self.wf(),
        ensures
            r matches Some(i) ==> i < self.holdings@.len() && self.holdings@[i as int].key() == (
            *owner,
            *mint,
            ),
            r is None ==> !self@.contains_key((*owner, *mint)),
    {
        let mut i: usize = 0;
        while i < self.holdings.len()
            invariant
                self.wf(),
                0 <= i <= self.holdings@.len(),
                forall|j: int| 0 <= j < i ==> self.holdings@[j].key() != (*owner, *mint),
            decreases self.holdings@.len() - i,
        {
            let h = &self.holdings[i];
            if same_address(&h.owner, owner) && same_address(&h.mint, mint) {
                return Some(i);
            }
            i = i + 1;
        }
        None
    }

    /// The balance of the `(owner, mint)` account, if it is open.
    pub fn balance_of(&self, owner: &Address, mint: &Address) -> (r: Option<u64>)
        requires
            self.wf(),
        ensures
            r == (if self@.contains_key((*owner, *mint)) {
                Some(self@[(*owner, *mint)])
            } else {
                None
            }),
    {
        match self.find(owner, mint) {
            Some(i) => Some(self.holdings[i].amount),
            None => None,
        }
    }

    /// Sets the balance of one account, opening it when needed.
    fn put(&mut self, owner: Address, mint: Address, amount: u64)
        requires
            old(self).wf(),
        ensures
            final(self).wf(),
            final(self)@ == old(self)@.insert((owner, mint), amount),
    {
        let ghost old_holdings = self.holdings@;
        let h = Holding { owner, mint, amount };
        match self.find(&owner, &mint) {
            Some(i) => {
                self.holdings.set(i, h);
                self.balances = Ghost(self.balances@.insert((owner, mint), amount));
                assert forall|k: (Address, Address)| #[trigger] self.balances@.contains_key(k) implies exists|
                    j: int,
                | 0 <= j < self.holdings@.len() && self.holdings@[j].key() == k by {
                    if k != (owner, mint) {
                        let j = choose|j: int|
                            0 <= j < old_holdings.len() && old_holdings[j].key() == k;
                        assert(self.holdings@[j].key() == k);
                    } else {
                        assert(self.holdings@[i as int].key() == k);
                    }
                }
            },
            None => {
                self.holdings.push(h);
                self.balances = Ghost(self.balances@.insert((owner, mint), amount));
                assert forall|k: (Address, Address)| #[trigger] self.balances@.contains_key(k) implies exists|
                    j: int,
                | 0 <= j < self.holdings@.len() && self.holdings@[j].key() == k by {
                    if k == (owner, mint) {
                        assert(self.holdings@[old_holdings.len() as int].key() == k);
                    } else {
                        let j = choose|j: int|
                            0 <= j < old_holdings.len() && old_holdings[j].key() == k;
                        assert(self.holdings@[j].key() == k);
                    }
                }
            },
        }
    }

    /// Credits newly issued units to an account, opening it when needed.
    /// Fails with `ArithmeticOverflow`, changing nothing, when the balance
    /// would leave `u64`.
    pub fn mint_to(&mut self, owner: Address, mint: Address, amount: u64) -> (r: Result<
        (),
        EscrowError,
    >)
        requires
            old(self).wf(),
        ensures
            final(self).wf(),
            balance(old(self)@, (owner, mint)) + amount > u64::MAX ==> r == Err::<(), _>(
                EscrowError::ArithmeticOverflow,
            ) && final(self)@ == old(self)@,
            balance(old(self)@, (owner, mint)) + amount <= u64::MAX ==> r is Ok && final(self)@
                == old(self)@.insert((owner, mint), (balance(old(self)@, (owner, mint)) + amount) as u64),
    {
        let current: u64 = match self.balance_of(&owner, &mint) {
            Some(b) => b,
            None => 0,
        };
        match current.checked_add(amount) {
            Some(total) => {
                self.put(owner, mint, total);
                Ok(())
            },
            None => Err(EscrowError::ArithmeticOverflow),
        }
    }

    /// Moves `amount` of `mint` from `from` to `to`, all or nothing.
    pub fn transfer(&mut self, from: Address, to: Address, mint: Address, amount: u64) -> (r:
        Result<(), EscrowError>)
        requires
            old(self).wf(),
        ensures
            final(self).wf(),
            r == transfer_check(old(self)@, from, to, mint, amount),
            r is Ok ==> final(self)@ == transferred(old(self)@, from, to, mint, amount),
            r is Err ==> final(self)@ == old(self)@,
    {
        let have: u64 = match self.balance_of(&from, &mint) {
            Some(b) => b,
            None => {
                return Err(EscrowError::InsufficientFunds);
            },
        };
        if have < amount {
            return Err(EscrowError::InsufficientFunds);
        }
        if same_address(&from, &to) {
            let ghost m = self@;
            assert(transferred(m, from, to, mint, amount) =~= m);
            return Ok(());
        }
        let dest: u64 = match self.balance_of(&to, &mint) {
            Some(b) => b,
            None => 0,
        };
        if dest > u64::MAX - amount {
            return Err(EscrowError::ArithmeticOverflow);
        }
        self.put(from, mint, have - amount);
        self.put(to, mint, dest + amount);
        Ok(())
    }
}

} // verus!
