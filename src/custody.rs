//! Custody address derivation: a deterministic holding address and nonce
//! computed from the sender, the recipient hash and a domain tag, and the
//! capability that lets the protocol move funds out of that address.
use anchor_lang::prelude::Pubkey;
use vstd::prelude::*;

verus! {

/// The 32 bytes of an account identity, or of a recipient hash.
pub type Address = [u8; 32];

/// What `Pubkey::try_find_program_address` returns for the seeds
/// `[tag, first, second]` under `program`: the derived address and its bump.
pub uninterp spec fn program_address_of(
    tag: Seq<u8>,
    first: Seq<u8>,
    second: Seq<u8>,
    program: Seq<u8>,
) -> Option<(Address, u8)>;

/// Relies on `Pubkey::try_find_program_address` of solana-program: a pure
/// function of the seeds and the program id (a hash search over bump seeds),
/// which gives `None` rather than panicking when no bump fits.
#[verifier::external_body]
fn try_find_program_address(tag: &[u8], first: &Address, second: &Address, program: &Address) -> (r:
    Option<(Address, u8)>)
    ensures
        r == program_address_of(tag@, first@, second@, program@),
{
    let seeds: [&[u8]; 3] = [tag, first, second];
    Pubkey::try_find_program_address(&seeds, &Pubkey::new_from_array(*program)).map(
        |(k, b)| (k.to_bytes(), b),
    )
}

/// The domain tag "escrow" that separates custody addresses from other derivations.
pub open spec fn escrow_tag() -> Seq<u8> {
    seq![101u8, 115u8, 99u8, 114u8, 111u8, 119u8]
}

/// The derived custody address and nonce of the escrow keyed by
/// `(sender, recipient_hash)` under `program`, if one exists.
pub open spec fn custody_of(sender: Address, recipient_hash: Address, program: Address) -> Option<
    (Address, u8),
> {
    program_address_of(escrow_tag(), sender@, recipient_hash@, program@)
}

pub fn escrow_domain_tag() -> (r: Vec<u8>)
    ensures
        r@ == escrow_tag(),
{
    let r = vec![101u8, 115u8, 99u8, 114u8, 111u8, 119u8];
    assert(r@ =~= escrow_tag());
    r
}

/// Derives the custody address and nonce for `(sender, recipient_hash)`.
/// The same inputs always give the same result.
pub fn derive_custody_address(sender: &Address, recipient_hash: &Address, program: &Address) -> (r:
    Option<(Address, u8)>)
    ensures
        r == custody_of(*sender, *recipient_hash, *program),
{
    let tag = escrow_domain_tag();
    try_find_program_address(tag.as_slice(), sender, recipient_hash, program)
}

/// The capability that authorises an outbound transfer from a custody
/// address: the derivation inputs and the stored nonce, no private key.
#[derive(Debug)]
pub struct CustodyAuthority {
    pub tag: Vec<u8>,
    pub sender: Address,
    pub recipient_hash: Address,
    pub nonce: u8,
}

impl CustodyAuthority {
    /// Rebuilds the capability from the stored derivation inputs.
    pub fn new(sender: Address, recipient_hash: Address, nonce: u8) -> (r: CustodyAuthority)
        ensures
            r.tag@ == escrow_tag(),
            r.sender == sender,
            r.recipient_hash == recipient_hash,
            r.nonce == nonce,
    {
        CustodyAuthority { tag: escrow_domain_tag(), sender, recipient_hash, nonce }
    }
}

/// Byte-wise equality of two identities.
pub fn same_address(a: &Address, b: &Address) -> (r: bool)
    ensures
        r == (*a == *b),
{
    let mut i: usize = 0;
    while i < 32
        invariant
            0 <= i <= 32,
            forall|j: int| 0 <= j < i ==> a[j] == b[j],
        decreases 32 - i,
    {
        if a[i] != b[i] {
            return false;
        }
        i = i + 1;
    }
    assert(*a =~= *b);
    true
}

} // verus!
