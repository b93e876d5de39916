//! The transition engine: create, claim and reclaim over the record store
//! and the token ledger, each applied whole or not at all.
use crate::custody::{custody_of, derive_custody_address, Address, CustodyAuthority};
use crate::escrow::{
    claim_check, claimed, create_check, expired, opened, reclaim_check, validate_create,
    EscrowAccount, EscrowError, EscrowStatus,
};
use crate::ledger::{balance, transfer_check, transferred, TokenLedger};
use crate::store::EscrowStore;
use vstd::prelude::*;

verus! {

/// Everything the transitions read and write: the program's own identity,
/// the escrow records and the balances of the holding accounts.
pub struct EscrowState {
    pub program_id: Address,
    pub records: EscrowStore,
    pub tokens: TokenLedger,
}

impl EscrowState {
    pub open spec fn wf(&self) -> bool {
        self.records.wf() && self.tokens.wf()
    }

    /// An empty state for the program `program_id`.
    pub fn new(program_id: Address) -> (r: EscrowState)
        ensures
            r.wf(),
            r.program_id == program_id,
            r.records@ == Map::<(Address, Address), EscrowAccount>::empty(),
            r.tokens@ == Map::<(Address, Address), u64>::empty(),
    {
        EscrowState { program_id, records: EscrowStore::new(), tokens: TokenLedger::new() }
    }
}

/// What a create returns: the new record, or the first failure met, in the
/// order amount, expiry window, existing record, derivation, existing custody
/// account, sender funds.
pub open spec fn initialize_outcome(
    program: Address,
    records: Map<(Address, Address), EscrowAccount>,
    tokens: Map<(Address, Address), u64>,
    sender: Address,
    token_mint: Address,
    amount: u64,
    recipient_email_hash: Address,
    expires_at: i64,
    now: i64,
) -> Result<EscrowAccount, EscrowError> {
    match create_check(amount, expires_at, now) {
        Err(e) => Err(e),
        Ok(_) => if records.contains_key((sender, recipient_email_hash)) {
            Err(EscrowError::AlreadyExists)
        } else {
            match custody_of(sender, recipient_email_hash, program) {
                None => Err(EscrowError::CustodyUnavailable),
                Some(p) => if tokens.contains_key((p.0, token_mint)) {
                    Err(EscrowError::AlreadyExists)
                } else {
                    match transfer_check(tokens, sender, p.0, token_mint, amount) {
                        Err(e) => Err(e),
                        Ok(_) => Ok(
                            opened(
                                sender,
                                recipient_email_hash,
                                token_mint,
                                p.0,
                                p.1,
                                amount,
                                expires_at,
                                now,
                            ),
                        ),
                    }
                },
            }
        },
    }
}

/// What a claim by `claimant` returns: the claimed record, or the first
/// failure met, in the order record lookup, claim conditions, transfer.
pub open spec fn claim_outcome(
    records: Map<(Address, Address), EscrowAccount>,
    tokens: Map<(Address, Address), u64>,
    sender: Address,
    recipient_email_hash: Address,
    claimant: Address,
    now: i64,
) -> Result<EscrowAccount, EscrowError> {
    if !records.contains_key((sender, recipient_email_hash)) {
        Err(EscrowError::EscrowNotFound)
    } else {
        let rec = records[(sender, recipient_email_hash)];
        match claim_check(rec, claimant, now) {
            Err(e) => Err(e),
            Ok(_) => match transfer_check(
                tokens,
                rec.custody_address,
                claimant,
                rec.token_mint,
                rec.amount,
            ) {
                Err(e) => Err(e),
                Ok(_) => Ok(claimed(rec, claimant)),
            },
        }
    }
}

/// What a reclaim by `caller` returns: the expired record, or the first
/// failure met, in the order record lookup, reclaim conditions, transfer.
pub open spec fn reclaim_outcome(
    records: Map<(Address, Address), EscrowAccount>,
    tokens: Map<(Address, Address), u64>,
    caller: Address,
    sender: Address,
    recipient_email_hash: Address,
    now: i64,
) -> Result<EscrowAccount, EscrowError> {
    if !records.contains_key((sender, recipient_email_hash)) {
        Err(EscrowError::EscrowNotFound)
    } else {
        let rec = records[(sender, recipient_email_hash)];
        match reclaim_check(rec, caller, now) {
            Err(e) => Err(e),
            Ok(_) => match transfer_check(
                tokens,
                rec.custody_address,
                rec.sender,
                rec.token_mint,
                rec.amount,
            ) {
                Err(e) => Err(e),
                Ok(_) => Ok(expired(rec)),
            },
        }
    }
}

/// Locks `amount` of `token_mint` from `sender` in a freshly derived custody
/// account, under the claim condition `recipient_email_hash`, until
/// `expires_at`; `now` is the one clock reading of this transition.
pub fn initialize_escrow(
    state: &mut EscrowState,
    sender: Address,
    token_mint: Address,
    amount: u64,
    recipient_email_hash: Address,
    expires_at: i64,
    now: i64,
) -> (r: Result<EscrowAccount, EscrowError>)
    requires
        old(state).wf(),
    ensures
        final(state).wf(),
        final(state).program_id == old(state).program_id,
        r == initialize_outcome(
            old(state).program_id,
            old(state).records@,
            old(state).tokens@,
            sender,
            token_mint,
            amount,
            recipient_email_hash,
            expires_at,
            now,
        ),
        r matches Ok(rec) ==> {
            &&& final(state).records@ == old(state).records@.insert(
                (sender, recipient_email_hash),
                rec,
            )
            &&& final(state).tokens@ == transferred(
                old(state).tokens@,
                sender,
                rec.custody_address,
                token_mint,
                amount,
            )
            &&& rec.status == EscrowStatus::Active
            &&& balance(final(state).tokens@, (rec.custody_address, token_mint)) == amount
        },
        r is Err ==> final(state).records@ == old(state).records@ && final(state).tokens@ == old(
            state,
        ).tokens@,
{
    match validate_create(amount, expires_at, now) {
        Err(e) => {
            return Err(e);
        },
        Ok(()) => {},
    }
    if state.records.get(&sender, &recipient_email_hash).is_some() {
        return Err(EscrowError::AlreadyExists);
    }
    let (custody, bump) = match derive_custody_address(
        &sender,
        &recipient_email_hash,
        &state.program_id,
    ) {
        None => {
            return Err(EscrowError::CustodyUnavailable);
        },
        Some(p) => p,
    };
    if state.tokens.balance_of(&custody, &token_mint).is_some() {
        return Err(EscrowError::AlreadyExists);
    }
    let rec = match EscrowAccount::open(
        sender,
        recipient_email_hash,
        token_mint,
        custody,
        bump,
        amount,
        expires_at,
        now,
    ) {
        Err(e) => {
            return Err(e);
        },
        Ok(rec) => rec,
    };
    match state.tokens.transfer(sender, custody, token_mint, amount) {
        Err(e) => {
            return Err(e);
        },
        Ok(()) => {},
    }
    match state.records.create(rec) {
        Err(e) => Err(e),
        Ok(()) => Ok(rec),
    }
}

/// Releases the escrow keyed by `(sender, recipient_email_hash)` to
/// `recipient`, binding it as the recipient; `now` is the one clock reading
/// of this transition.
pub fn claim_escrow(
    state: &mut EscrowState,
    sender: Address,
    recipient_email_hash: Address,
    recipient: Address,
    now: i64,
) -> (r: Result<EscrowAccount, EscrowError>)
    requires
        old(state).wf(),
    ensures
        final(state).wf(),
        final(state).program_id == old(state).program_id,
        r == claim_outcome(
            old(state).records@,
            old(state).tokens@,
            sender,
            recipient_email_hash,
            recipient,
            now,
        ),
        r matches Ok(rec) ==> {
            &&& final(state).records@ == old(state).records@.insert(
                (sender, recipient_email_hash),
                rec,
            )
            &&& final(state).tokens@ == transferred(
                old(state).tokens@,
                rec.custody_address,
                recipient,
                rec.token_mint,
                rec.amount,
            )
        },
        r is Err ==> final(state).records@ == old(state).records@ && final(state).tokens@ == old(
            state,
        ).tokens@,
{
    let mut rec = match state.records.get(&sender, &recipient_email_hash) {
        None => {
            return Err(EscrowError::EscrowNotFound);
        },
        Some(rec) => rec,
    };
    proof {
        state.records.lemma_records_wf((sender, recipient_email_hash));
    }
    let order = match rec.claim(recipient, now) {
        Err(e) => {
            return Err(e);
        },
        Ok(order) => order,
    };
    match state.tokens.transfer(order.from, order.to, order.mint, order.amount) {
        Err(e) => {
            return Err(e);
        },
        Ok(()) => {},
    }
    state.records.update(rec);
    Ok(rec)
}

/// Returns an expired escrow to its sender; `caller` must be that sender and
/// `now` is the one clock reading of this transition.
pub fn reclaim_expired_escrow(
    state: &mut EscrowState,
    caller: Address,
    sender: Address,
    recipient_email_hash: Address,
    now: i64,
) -> (r: Result<EscrowAccount, EscrowError>)
    requires
        old(state).wf(),
    ensures
        final(state).wf(),
        final(state).program_id == old(state).program_id,
        r == reclaim_outcome(
            old(state).records@,
            old(state).tokens@,
            caller,
            sender,
            recipient_email_hash,
            now,
        ),
        r matches Ok(rec) ==> {
            &&& final(state).records@ == old(state).records@.insert(
                (sender, recipient_email_hash),
                rec,
            )
            &&& final(state).tokens@ == transferred(
                old(state).tokens@,
                rec.custody_address,
                rec.sender,
                rec.token_mint,
                rec.amount,
            )
        },
        r is Err ==> final(state).records@ == old(state).records@ && final(state).tokens@ == old(
            state,
        ).tokens@,
{
    let mut rec = match state.records.get(&sender, &recipient_email_hash) {
        None => {
            return Err(EscrowError::EscrowNotFound);
        },
        Some(rec) => rec,
    };
    proof {
        state.records.lemma_records_wf((sender, recipient_email_hash));
    }
    let order = match rec.reclaim(caller, now) {
        Err(e) => {
            return Err(e);
        },
        Ok(order) => order,
    };
    match state.tokens.transfer(order.from, order.to, order.mint, order.amount) {
        Err(e) => {
            return Err(e);
        },
        Ok(()) => {},
    }
    state.records.update(rec);
    Ok(rec)
}

/// The capability that authorises the outbound transfer from the custody
/// account of `rec`, rebuilt from its key and stored nonce.
pub fn custody_authority(rec: &EscrowAccount) -> (r: CustodyAuthority)
    ensures
        r.sender == rec.sender,
        r.recipient_hash == rec.recipient_email_hash,
        r.nonce == rec.bump,
        r.tag@ == crate::custody::escrow_tag(),
{
    CustodyAuthority::new(rec.sender, rec.recipient_email_hash, rec.bump)
}

} // verus!
