//! Properties of the escrow lifecycle that relate several transitions.
use crate::custody::Address;
use crate::escrow::{claimed, expired, EscrowAccount, EscrowError, EscrowStatus};
use crate::ledger::transferred;
use crate::program::{claim_outcome, reclaim_outcome};
use vstd::prelude::*;

verus! {

/// A record leaves `Active` at most once: after a claim, and after a
/// reclaim, every further claim and every further reclaim fails with
/// `EscrowNotActive`, so `Claimed` and `Expired` are never both reached.
pub proof fn lemma_terminal_status_is_final(
    records: Map<(Address, Address), EscrowAccount>,
    tokens: Map<(Address, Address), u64>,
    key: (Address, Address),
    claimant: Address,
    who: Address,
    now: i64,
)
    requires
        records.contains_key(key),
    ensures
        ({
            let c = records.insert(key, claimed(records[key], claimant));
            &&& claim_outcome(c, tokens, key.0, key.1, who, now) == Err::<EscrowAccount, _>(
                EscrowError::EscrowNotActive,
            )
            &&& reclaim_outcome(c, tokens, who, key.0, key.1, now) == Err::<EscrowAccount, _>(
                EscrowError::EscrowNotActive,
            )
        }),
        ({
            let x = records.insert(key, expired(records[key]));
            &&& claim_outcome(x, tokens, key.0, key.1, who, now) == Err::<EscrowAccount, _>(
                EscrowError::EscrowNotActive,
            )
            &&& reclaim_outcome(x, tokens, who, key.0, key.1, now) == Err::<EscrowAccount, _>(
                EscrowError::EscrowNotActive,
            )
        }),
{
}

/// Of two claims with different identities against the same active,
/// unbound record, whichever comes first may succeed, and then the other
/// fails with `EscrowNotActive` and moves nothing: funds are released once.
pub proof fn lemma_double_claim(
    records: Map<(Address, Address), EscrowAccount>,
    tokens: Map<(Address, Address), u64>,
    sender: Address,
    recipient_email_hash: Address,
    a: Address,
    b: Address,
    t1: i64,
    t2: i64,
)
    requires
        a != b,
        records.contains_key((sender, recipient_email_hash)),
        records[(sender, recipient_email_hash)].status == EscrowStatus::Active,
        records[(sender, recipient_email_hash)].recipient_wallet is None,
    ensures
        claim_outcome(records, tokens, sender, recipient_email_hash, a, t1) is Ok ==> {
            let rec = claim_outcome(records, tokens, sender, recipient_email_hash, a, t1)->Ok_0;
            let records2 = records.insert((sender, recipient_email_hash), rec);
            let tokens2 = transferred(tokens, rec.custody_address, a, rec.token_mint, rec.amount);
            &&& rec.recipient_wallet == Some(a)
            &&& claim_outcome(records2, tokens2, sender, recipient_email_hash, b, t2) == Err::<
                EscrowAccount,
                _,
            >(EscrowError::EscrowNotActive)
        },
        claim_outcome(records, tokens, sender, recipient_email_hash, b, t1) is Ok ==> {
            let rec = claim_outcome(records, tokens, sender, recipient_email_hash, b, t1)->Ok_0;
            let records2 = records.insert((sender, recipient_email_hash), rec);
            let tokens2 = transferred(tokens, rec.custody_address, b, rec.token_mint, rec.amount);
            &&& rec.recipient_wallet == Some(b)
            &&& claim_outcome(records2, tokens2, sender, recipient_email_hash, a, t2) == Err::<
                EscrowAccount,
                _,
            >(EscrowError::EscrowNotActive)
        },
{
}

/// A second claim by the same identity after a successful claim is
/// rejected with `EscrowNotActive`: it never pays twice.
pub proof fn lemma_repeated_claim_rejected(
    records: Map<(Address, Address), EscrowAccount>,
    tokens: Map<(Address, Address), u64>,
    sender: Address,
    recipient_email_hash: Address,
    claimant: Address,
    t1: i64,
    t2: i64,
)
    requires
        claim_outcome(records, tokens, sender, recipient_email_hash, claimant, t1) is Ok,
    ensures
        ({
            let rec = claim_outcome(records, tokens, sender, recipient_email_hash, claimant, t1)->Ok_0;
            let records2 = records.insert((sender, recipient_email_hash), rec);
            let tokens2 = transferred(tokens, rec.custody_address, claimant, rec.token_mint, rec.amount);
            claim_outcome(records2, tokens2, sender, recipient_email_hash, claimant, t2) == Err::<
                EscrowAccount,
                _,
            >(EscrowError::EscrowNotActive)
        }),
{
}

/// On an active record, a reclaim at or before the expiry fails with
/// `EscrowNotExpired`, and a claim after it fails with `EscrowExpired`;
/// each decision reads the one clock value handed to its transition.
pub proof fn lemma_expiry_window(
    records: Map<(Address, Address), EscrowAccount>,
    tokens: Map<(Address, Address), u64>,
    sender: Address,
    recipient_email_hash: Address,
    who: Address,
    now: i64,
)
    requires
        records.contains_key((sender, recipient_email_hash)),
        records[(sender, recipient_email_hash)].status == EscrowStatus::Active,
    ensures
        now <= records[(sender, recipient_email_hash)].expires_at ==> reclaim_outcome(
            records,
            tokens,
            who,
            sender,
            recipient_email_hash,
            now,
        ) == Err::<EscrowAccount, _>(EscrowError::EscrowNotExpired),
        now > records[(sender, recipient_email_hash)].expires_at ==> claim_outcome(
            records,
            tokens,
            sender,
            recipient_email_hash,
            who,
            now,
        ) == Err::<EscrowAccount, _>(EscrowError::EscrowExpired),
{
}

} // verus!
