//! The escrow record, its status and failure kinds, and the three
//! record-level transitions with their validation predicates.
use crate::custody::Address;
use vstd::prelude::*;

verus! {

/// The longest allowed lifetime of an escrow, in seconds (thirty days).
pub const MAX_ESCROW_DURATION: i64 = 2592000;

#[derive(Clone, Copy, Debug, PartialEq, Eq, Structural)]
pub enum EscrowStatus {
    Active,
    Claimed,
    Expired,
}

#[derive(Clone, Copy, Debug, PartialEq, Eq, Structural)]
pub enum EscrowError {
    /// The amount is zero.
    InvalidAmount,
    /// The expiry is not strictly after the current time.
    InvalidExpiration,
    /// The expiry lies more than thirty days ahead.
    ExpirationTooLong,
    /// A record (or its custody account) already exists for the key.
    AlreadyExists,
    /// No record exists for the key.
    EscrowNotFound,
    /// The record is already claimed or expired.
    EscrowNotActive,
    /// A claim came after the expiry.
    EscrowExpired,
    /// A reclaim came before the expiry.
    EscrowNotExpired,
    /// The claimant differs from the recipient already bound.
    InvalidRecipient,
    /// The reclaim caller is not the sender.
    UnauthorizedSender,
    /// The source account holds less than the amount moved.
    InsufficientFunds,
    /// A balance would leave the range of `u64`.
    ArithmeticOverflow,
    /// No custody address can be derived for the key.
    CustodyUnavailable,
}

/// The persisted record of one escrow, keyed by `(sender, recipient_email_hash)`.
#[derive(Clone, Copy, Debug)]
pub struct EscrowAccount {
    pub sender: Address,
    pub recipient_email_hash: Address,
    pub recipient_wallet: Option<Address>,
    pub token_mint: Address,
    pub custody_address: Address,
    pub amount: u64,
    pub created_at: i64,
    pub expires_at: i64,
    pub status: EscrowStatus,
    pub bump: u8,
}

/// The one asset movement a successful transition asks the ledger for.
#[derive(Clone, Copy, Debug)]
pub struct TransferOrder {
    pub from: Address,
    pub to: Address,
    pub mint: Address,
    pub amount: u64,
}

impl EscrowAccount {
    /// The record invariant: a positive amount, an expiry within thirty days
    /// of creation, and a recipient bound exactly when the escrow was claimed.
    pub open spec fn wf(self) -> bool {
        &&& self.amount > 0
        &&& self.created_at < self.expires_at
        &&& self.expires_at <= self.created_at + MAX_ESCROW_DURATION
        &&& (self.recipient_wallet is Some <==> self.status == EscrowStatus::Claimed)
    }

    pub open spec fn key(self) -> (Address, Address) {
        (self.sender, self.recipient_email_hash)
    }
}

/// Which failure, if any, a create with these inputs meets at time `now`.
pub open spec fn create_check(amount: u64, expires_at: i64, now: i64) -> Result<(), EscrowError> {
    if amount == 0 {
        Err(EscrowError::InvalidAmount)
    } else if expires_at <= now {
        Err(EscrowError::InvalidExpiration)
    } else if expires_at > now + MAX_ESCROW_DURATION {
        Err(EscrowError::ExpirationTooLong)
    } else {
        Ok(())
    }
}

/// Which failure, if any, a claim by `claimant` at time `now` meets.
pub open spec fn claim_check(rec: EscrowAccount, claimant: Address, now: i64) -> Result<
    (),
    EscrowError,
> {
    if rec.status != EscrowStatus::Active {
        Err(EscrowError::EscrowNotActive)
    } else if now > rec.expires_at {
        Err(EscrowError::EscrowExpired)
    } else if rec.recipient_wallet is Some && rec.recipient_wallet != Some(claimant) {
        Err(EscrowError::InvalidRecipient)
    } else {
        Ok(())
    }
}

/// Which failure, if any, a reclaim by `caller` at time `now` meets.
pub open spec fn reclaim_check(rec: EscrowAccount, caller: Address, now: i64) -> Result<
    (),
    EscrowError,
> {
    if rec.status != EscrowStatus::Active {
        Err(EscrowError::EscrowNotActive)
    } else if now <= rec.expires_at {
        Err(EscrowError::EscrowNotExpired)
    } else if caller != rec.sender {
        Err(EscrowError::UnauthorizedSender)
    } else {
        Ok(())
    }
}

/// The record after a successful claim by `claimant`.
pub open spec fn claimed(rec: EscrowAccount, claimant: Address) -> EscrowAccount {
    EscrowAccount { status: EscrowStatus::Claimed, recipient_wallet: Some(claimant), ..rec }
}

/// The record after a successful reclaim.
pub open spec fn expired(rec: EscrowAccount) -> EscrowAccount {
    EscrowAccount { status: EscrowStatus::Expired, ..rec }
}

/// Checks the inputs of a create against the clock reading `now`.
pub fn validate_create(amount: u64, expires_at: i64, now: i64) -> (r: Result<(), EscrowError>)
    ensures
        r == create_check(amount, expires_at, now),
{
    if amount == 0 {
        return Err(EscrowError::InvalidAmount);
    }
    if expires_at <= now {
        return Err(EscrowError::InvalidExpiration);
    }
    if now <= i64::MAX - MAX_ESCROW_DURATION && expires_at > now + MAX_ESCROW_DURATION {
        return Err(EscrowError::ExpirationTooLong);
    }
    Ok(())
}

impl EscrowAccount {
    /// A fresh active record, with no recipient bound yet.
    pub fn open(
        sender: Address,
        recipient_email_hash: Address,
        token_mint: Address,
        custody_address: Address,
        bump: u8,
        amount: u64,
        expires_at: i64,
        now: i64,
    ) -> (r: Result<EscrowAccount, EscrowError>)
        ensures
            r matches Err(e) ==> create_check(amount, expires_at, now) == Err::<(), _>(e),
            r matches Ok(a) ==> create_check(amount, expires_at, now) is Ok && a == opened(
                sender,
                recipient_email_hash,
                token_mint,
                custody_address,
                bump,
                amount,
                expires_at,
                now,
            ),
            create_check(amount, expires_at, now) is Ok ==> r is Ok,
    {
        match validate_create(amount, expires_at, now) {
            Err(e) => Err(e),
            Ok(()) => Ok(
                EscrowAccount {
                    sender,
                    recipient_email_hash,
                    recipient_wallet: None,
                    token_mint,
                    custody_address,
                    amount,
                    created_at: now,
                    expires_at,
                    status: EscrowStatus::Active,
                    bump,
                },
            ),
        }
    }

    /// Checks a claim by `claimant` at `now`; on success binds the recipient,
    /// marks the record claimed and returns the release transfer.
    /// A failed claim leaves the record as it was.
    pub fn claim(&mut self, claimant: Address, now: i64) -> (r: Result<TransferOrder, EscrowError>)
        ensures
            r matches Err(e) ==> claim_check(*old(self), claimant, now) == Err::<(), _>(e)
                && *final(self) == *old(self),
            r matches Ok(t) ==> claim_check(*old(self), claimant, now) is Ok && *final(self)
                == claimed(*old(self), claimant) && t == release_to(*old(self), claimant),
            claim_check(*old(self), claimant, now) is Ok ==> r is Ok,
    {
        if !(self.status == EscrowStatus::Active) {
            return Err(EscrowError::EscrowNotActive);
        }
        if now > self.expires_at {
            return Err(EscrowError::EscrowExpired);
        }
        match self.recipient_wallet {
            Some(w) => {
                if !crate::custody::same_address(&w, &claimant) {
                    return Err(EscrowError::InvalidRecipient);
                }
            },
            None => {},
        }
        self.status = EscrowStatus::Claimed;
        self.recipient_wallet = Some(claimant);
        Ok(
            TransferOrder {
                from: self.custody_address,
                to: claimant,
                mint: self.token_mint,
                amount: self.amount,
            },
        )
    }

    /// Checks a reclaim by `caller` at `now`; on success marks the record
    /// expired and returns the transfer back to the sender.
    /// A failed reclaim leaves the record as it was.
    pub fn reclaim(&mut self, caller: Address, now: i64) -> (r: Result<TransferOrder, EscrowError>)
        ensures
            r matches Err(e) ==> reclaim_check(*old(self), caller, now) == Err::<(), _>(e)
                && *final(self) == *old(self),
            r matches Ok(t) ==> reclaim_check(*old(self), caller, now) is Ok && *final(self)
                == expired(*old(self)) && t == release_to(*old(self), old(self).sender),
            reclaim_check(*old(self), caller, now) is Ok ==> r is Ok,
    {
        if !(self.status == EscrowStatus::Active) {
            return Err(EscrowError::EscrowNotActive);
        }
        if now <= self.expires_at {
            return Err(EscrowError::EscrowNotExpired);
        }
        if !crate::custody::same_address(&caller, &self.sender) {
            return Err(EscrowError::UnauthorizedSender);
        }
        self.status = EscrowStatus::Expired;
        Ok(
            TransferOrder {
                from: self.custody_address,
                to: self.sender,
                mint: self.token_mint,
                amount: self.amount,
            },
        )
    }
}

/// The record a successful create writes.
pub open spec fn opened(
    sender: Address,
    recipient_email_hash: Address,
    token_mint: Address,
    custody_address: Address,
    bump: u8,
    amount: u64,
    expires_at: i64,
    now: i64,
) -> EscrowAccount {
    EscrowAccount {
        sender,
        recipient_email_hash,
        recipient_wallet: None,
        token_mint,
        custody_address,
        amount,
        created_at: now,
        expires_at,
        status: EscrowStatus::Active,
        bump,
    }
}

/// The transfer of the whole locked amount out of custody to `to`.
pub open spec fn release_to(rec: EscrowAccount, to: Address) -> TransferOrder {
    TransferOrder { from: rec.custody_address, to, mint: rec.token_mint, amount: rec.amount }
}

} // verus!
