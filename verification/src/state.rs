use vstd::prelude::*;

use crate::errors::LedgerError;

verus! {

/// A 32-byte owner identity or derived account address, as a mathematical
/// sequence of bytes.
pub type KeyV = Seq<u8>;

/// `s` truncated to at most `n` bytes and zero-padded to exactly `n` bytes:
/// the fixed-width byte field that a persisted record stores for a
/// variable-length label.
pub open spec fn padded(s: Seq<u8>, n: nat) -> Seq<u8> {
    Seq::new(n, |i: int| if i < s.len() { s[i] } else { 0u8 })
}

/// One operator namespace. There is exactly one tenant per admin identity.
#[derive(Clone, Copy)]
pub struct Tenant {
    /// The owning identity: the only key authorized to create or reference
    /// this tenant.
    pub admin: [u8; 32],
    /// Display name, truncated to 32 bytes and zero-padded; non-empty at
    /// creation.
    pub name: [u8; 32],
    /// Timestamp captured when the tenant was created.
    pub created_at: i64,
    /// Derivation parameter completing the tenant's deterministic address.
    pub bump: u8,
}

/// The mathematical model of a [`Tenant`].
pub struct TenantV {
    pub admin: KeyV,
    pub name: Seq<u8>,
    pub created_at: i64,
    pub bump: u8,
}

impl View for Tenant {
    type V = TenantV;

    open spec fn view(&self) -> TenantV {
        TenantV {
            admin: self.admin@,
            name: self.name@,
            created_at: self.created_at,
            bump: self.bump,
        }
    }
}

/// One ledger entry per (tenant, user) pair: the user's tracked balance and
/// session state. Paired one-to-one with a vault holding the actual value.
#[derive(Clone, Copy)]
pub struct User {
    /// The user identity that owns this entry.
    pub user: [u8; 32],
    /// Reference to the owning tenant record, by the tenant's key (the admin
    /// identity under which the registry stores it).
    pub tenant: [u8; 32],
    /// Session start timestamp; meaningful only while `is_parked` is true.
    pub time_stamp: i64,
    /// Session flag: true between a session start and the matching exit.
    pub is_parked: bool,
    /// Tracked balance; equals the paired vault's held value after every
    /// committed operation.
    pub amount: u64,
    /// Derivation parameter for the paired vault's address.
    pub vault_bump: u8,
    /// Derivation parameter for this entry's own address.
    pub state_bump: u8,
    /// Identifying label, truncated to 16 bytes and zero-padded; not used in
    /// accounting logic.
    pub number_plate: [u8; 16],
}

/// The mathematical model of a [`User`] ledger entry.
pub struct UserV {
    pub user: KeyV,
    pub tenant: KeyV,
    pub time_stamp: i64,
    pub is_parked: bool,
    pub amount: u64,
    pub vault_bump: u8,
    pub state_bump: u8,
    pub number_plate: Seq<u8>,
}

impl View for User {
    type V = UserV;

    open spec fn view(&self) -> UserV {
        UserV {
            user: self.user@,
            tenant: self.tenant@,
            time_stamp: self.time_stamp,
            is_parked: self.is_parked,
            amount: self.amount,
            vault_bump: self.vault_bump,
            state_bump: self.state_bump,
            number_plate: self.number_plate@,
        }
    }
}

/// The custody account paired with a ledger entry. It holds a quantity of
/// value and nothing else; its model is that quantity.
#[derive(Clone, Copy)]
pub struct VaultCustody {
    /// The value currently held in custody.
    pub value: u64,
}

impl View for VaultCustody {
    type V = u64;

    open spec fn view(&self) -> u64 {
        self.value
    }
}

/// Builds the tenant record created for `admin` at time `now`: the name must
/// be non-empty and is silently truncated into the fixed 32-byte field.
pub fn make_tenant(admin: &[u8; 32], name: &Vec<u8>, bump: u8, now: i64) -> (r: Result<
    Tenant,
    LedgerError,
>)
    ensures
        name@.len() == 0 ==> r == Err::<Tenant, LedgerError>(LedgerError::EmptyName),
        name@.len() > 0 ==> (r matches Ok(t) && t@ == (TenantV {
            admin: admin@,
            name: padded(name@, 32),
            created_at: now,
            bump,
        })),
{
    if name.len() == 0 {
        return Err(LedgerError::EmptyName);
    }
    Ok(Tenant { admin: *admin, name: pack_name(name), created_at: now, bump })
}

/// Builds the fresh ledger entry for (tenant, user) opened at time `now`:
/// idle, zero balance, plate silently truncated into the fixed 16-byte field;
/// the plate must be non-empty.
pub fn make_user(
    user: &[u8; 32],
    tenant: &[u8; 32],
    plate: &Vec<u8>,
    vault_bump: u8,
    state_bump: u8,
    now: i64,
) -> (r: Result<User, LedgerError>)
    ensures
        plate@.len() == 0 ==> r == Err::<User, LedgerError>(LedgerError::EmptyPlate),
        plate@.len() > 0 ==> (r matches Ok(e) && e@ == (UserV {
            user: user@,
            tenant: tenant@,
            time_stamp: now,
            is_parked: false,
            amount: 0,
            vault_bump,
            state_bump,
            number_plate: padded(plate@, 16),
        })),
{
    if plate.len() == 0 {
        return Err(LedgerError::EmptyPlate);
    }
    Ok(
        User {
            user: *user,
            tenant: *tenant,
            time_stamp: now,
            is_parked: false,
            amount: 0,
            vault_bump,
            state_bump,
            number_plate: pack_plate(plate),
        },
    )
}

/// Byte-wise equality of two 32-byte keys.
pub fn key_eq(a: &[u8; 32], b: &[u8; 32]) -> (r: bool)
    ensures
        r <==> a@ == b@,
{
    let mut i: usize = 0;
    while i < 32
        invariant
            0 <= i <= 32,
            forall|j: int| 0 <= j < i ==> a@[j] == b@[j],
        decreases 32 - i,
    {
        if a[i] != b[i] {
            return false;
        }
        i += 1;
    }
    proof {
        assert(a@ =~= b@);
    }
    true
}

/// Packs a variable-length name into the fixed 32-byte field a tenant record
/// stores: truncated to 32 bytes, zero-padded.
pub fn pack_name(src: &Vec<u8>) -> (r: [u8; 32])
    ensures
        r@ == padded(src@, 32),
{
    pack32(src)
}

/// Packs a variable-length number plate into the fixed 16-byte field a ledger
/// entry stores: truncated to 16 bytes, zero-padded.
pub fn pack_plate(src: &Vec<u8>) -> (r: [u8; 16])
    ensures
        r@ == padded(src@, 16),
{
    let mut out: [u8; 16] = [0u8; 16];
    let mut i: usize = 0;
    while i < 16 && i < src.len()
        invariant
            0 <= i <= 16,
            out@.len() == 16,
            i <= src@.len(),
            forall|j: int| 0 <= j < i ==> out@[j] == src@[j],
            forall|j: int| i <= j < 16 ==> out@[j] == 0u8,
        decreases 16 - i,
    {
        out[i] = src[i];
        i += 1;
    }
    proof {
        assert(out@ =~= padded(src@, 16));
    }
    out
}

fn pack32(src: &Vec<u8>) -> (r: [u8; 32])
    ensures
        r@ == padded(src@, 32),
{
    let mut out: [u8; 32] = [0u8; 32];
    let mut i: usize = 0;
    while i < 32 && i < src.len()
        invariant
            0 <= i <= 32,
            out@.len() == 32,
            i <= src@.len(),
            forall|j: int| 0 <= j < i ==> out@[j] == src@[j],
            forall|j: int| i <= j < 32 ==> out@[j] == 0u8,
        decreases 32 - i,
    {
        out[i] = src[i];
        i += 1;
    }
    proof {
        assert(out@ =~= padded(src@, 32));
    }
    out
}

} // verus!
