//! The escrow record store: at most one record per `(sender, recipient hash)`
//! key, with an explicit existence check before each insert.
use crate::custody::{same_address, Address};
use crate::escrow::EscrowAccount;
use vstd::prelude::*;

verus! {

pub struct EscrowStore {
    records: Vec<EscrowAccount>,
    contents: Ghost<Map<(Address, Address), EscrowAccount>>,
}

impl View for EscrowStore {
    type V = Map<(Address, Address), EscrowAccount>;

    closed spec fn view(&self) -> Self::V {
        self.contents@
    }
}

impl EscrowStore {
    /// The stored records list each key once, agree with the view, and are
    /// each well formed.
    pub closed spec fn wf(&self) -> bool {
        &&& forall|i: int|
            0 <= i < self.records@.len() ==> {
                &&& self.contents@.contains_key(#[trigger] self.records@[i].key())
                &&& self.contents@[self.records@[i].key()] == self.records@[i]
                &&& self.records@[i].wf()
            }
        &&& forall|k: (Address, Address)|
            #[trigger] self.contents@.contains_key(k) ==> exists|i: int|
                0 <= i < self.records@.len() && self.records@[i].key() == k
        &&& forall|i: int, j: int|
            0 <= i < j < self.records@.len() ==> self.records@[i].key()
                != self.records@[j].key()
    }

    pub proof fn lemma_records_wf(&self, k: (Address, Address))
        requires
            self.wf(),
            self@.contains_key(k),
        ensures
            self@[k].wf(),
            self@[k].key() == k,
    {
        let i = choose|i: int| 0 <= i < self.records@.len() && self.records@[i].key() == k;
        assert(self.records@[i].key() == k);
    }

    pub fn new() -> (r: EscrowStore)
        ensures
            r.wf(),
            r@ == Map::<(Address, Address), EscrowAccount>::empty(),
    {
        EscrowStore { records: Vec::new(), contents: Ghost(Map::empty()) }
    }

    fn find(&self, sender: &Address, recipient_hash: &Address) -> (r: Option<usize>)
        requires
            self.wf(),
        ensures
            r matches Some(i) ==> i < self.records@.len() && self.records@[i as int].key() == (
            *sender,
            *recipient_hash,
            ),
            r is None ==> !self@.contains_key((*sender, *recipient_hash)),
    {
        let mut i: usize = 0;
        while i < self.records.len()
            invariant
                self.wf(),
                0 <= i <= self.records@.len(),
                forall|j: int|
                    0 <= j < i ==> self.records@[j].key() != (*sender, *recipient_hash),
            decreases self.records@.len() - i,
        {
            let r = &self.records[i];
            if same_address(&r.sender, sender) && same_address(&r.recipient_email_hash, recipient_hash) {
                return Some(i);
            }
            i = i + 1;
        }
        None
    }

    /// The record stored under `(sender, recipient_hash)`, if any.
    pub fn get(&self, sender: &Address, recipient_hash: &Address) -> (r: Option<EscrowAccount>)
        requires
            self.wf(),
        ensures
            r == (if self@.contains_key((*sender, *recipient_hash)) {
                Some(self@[(*sender, *recipient_hash)])
            } else {
                None
            }),
    {
        match self.find(sender, recipient_hash) {
            Some(i) => Some(self.records[i]),
            None => None,
        }
    }

    /// Stores a new record; fails with `AlreadyExists` when its key is taken.
    pub fn create(&mut self, rec: EscrowAccount) -> (r: Result<(), crate::escrow::EscrowError>)
        requires
            old(self).wf(),
            rec.wf(),
        ensures
            final(self).wf(),
            old(self)@.contains_key(rec.key()) ==> r == Err::<(), _>(
                crate::escrow::EscrowError::AlreadyExists,
            ) && final(self)@ == old(self)@,
            !old(self)@.contains_key(rec.key()) ==> r is Ok && final(self)@ == old(self)@.insert(
                rec.key(),
                rec,
            ),
    {
        if self.find(&rec.sender, &rec.recipient_email_hash).is_some() {
            return Err(crate::escrow::EscrowError::AlreadyExists);
        }
        let ghost old_records = self.records@;
        self.records.push(rec);
        self.contents = Ghost(self.contents@.insert(rec.key(), rec));
        assert forall|k: (Address, Address)| #[trigger] self.contents@.contains_key(k) implies exists|
            i: int,
        | 0 <= i < self.records@.len() && self.records@[i].key() == k by {
            if k == rec.key() {
                assert(self.records@[old_records.len() as int].key() == k);
            } else {
                let i = choose|i: int| 0 <= i < old_records.len() && old_records[i].key() == k;
                assert(self.records@[i].key() == k);
            }
        }
        Ok(())
    }

    /// Replaces the record stored under the key of `rec`, which must exist.
    pub fn update(&mut self, rec: EscrowAccount)
        requires
            old(self).wf(),
            rec.wf(),
            old(self)@.contains_key(rec.key()),
        ensures
            final(self).wf(),
            final(self)@ == old(self)@.insert(rec.key(), rec),
    {
        let ghost old_records = self.records@;
        match self.find(&rec.sender, &rec.recipient_email_hash) {
            Some(i) => {
                self.records.set(i, rec);
                self.contents = Ghost(self.contents@.insert(rec.key(), rec));
                assert forall|k: (Address, Address)| #[trigger] self.contents@.contains_key(k) implies exists|
                    j: int,
                | 0 <= j < self.records@.len() && self.records@[j].key() == k by {
                    let j = choose|j: int| 0 <= j < old_records.len() && old_records[j].key() == k;
                    assert(self.records@[j].key() == k);
                }
            },
            None => {},
        }
    }
}

} // verus!
