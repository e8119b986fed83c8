use vstd::prelude::*;

use crate::state::KeyV;

verus! {

/// The program-derived address and bump for a seed list under a program id,
/// as the hosting execution environment computes them. Derivation is a pure
/// function of the seeds and the program id alone: identical inputs always
/// yield the identical address and bump. `None` means no viable bump exists
/// for these inputs (including a seed list that breaks the environment's
/// length limits). The derived address has no externally-controlled signing
/// key, so only logic holding the seeds and bump can authorize transfers out
/// of it; that guarantee lives outside what these contracts state.
pub uninterp spec fn derived_pda(seeds: Seq<Seq<u8>>, program_id: KeyV) -> Option<(KeyV, u8)>;

/// The fixed domain tag of the tenant address domain: the bytes of "tenant".
pub open spec fn tenant_tag() -> Seq<u8> {
    seq![116u8, 101u8, 110u8, 97u8, 110u8, 116u8]
}

/// The fixed domain tag of the user-entry address domain: the bytes of
/// "user".
pub open spec fn user_entry_tag() -> Seq<u8> {
    seq![117u8, 115u8, 101u8, 114u8]
}

/// The fixed domain tag of the vault address domain: the bytes of "vault".
pub open spec fn vault_tag() -> Seq<u8> {
    seq![118u8, 97u8, 117u8, 108u8, 116u8]
}

/// The seed list of a tenant address: the tenant domain tag and the admin
/// key.
pub open spec fn tenant_seeds_v(admin: KeyV) -> Seq<Seq<u8>> {
    seq![tenant_tag(), admin]
}

/// The seed list of a user-entry address: the user-entry domain tag, the
/// tenant address, and the user key.
pub open spec fn user_entry_seeds_v(tenant: KeyV, user: KeyV) -> Seq<Seq<u8>> {
    seq![user_entry_tag(), tenant, user]
}

/// The seed list of a vault address: the vault domain tag, the tenant
/// address, and the user key.
pub open spec fn vault_seeds_v(tenant: KeyV, user: KeyV) -> Seq<Seq<u8>> {
    seq![vault_tag(), tenant, user]
}

/// Relies on `anchor_lang::prelude::Pubkey::try_find_program_address`: for a
/// seed list and a program id it deterministically either finds the first
/// bump (searching downward from 255) whose derived address is viable and
/// returns that 32-byte address with the bump, or returns `None`. It never
/// panics: an overlong seed list or seed merely yields `None`.
#[verifier::external_body]
fn find_pda(seeds: &Vec<Vec<u8>>, program_id: &[u8; 32]) -> (r: Option<(Vec<u8>, u8)>)
    ensures
        r is Some <==> derived_pda(seeds.deep_view(), program_id@) is Some,
        r matches Some(p) ==> Some((p.0@, p.1)) == derived_pda(seeds.deep_view(), program_id@)
            && p.0@.len() == 32,
{
    let seed_slices: Vec<&[u8]> = seeds.iter().map(|s| s.as_slice()).collect();
    let pid = anchor_lang::prelude::Pubkey::new_from_array(*program_id);
    anchor_lang::prelude::Pubkey::try_find_program_address(&seed_slices, &pid).map(
        |p: (anchor_lang::prelude::Pubkey, u8)| (p.0.to_bytes().to_vec(), p.1),
    )
}

fn key_to_vec(k: &[u8; 32]) -> (r: Vec<u8>)
    ensures
        r@ == k@,
{
    let mut out: Vec<u8> = Vec::new();
    let mut i: usize = 0;
    while i < 32
        invariant
            0 <= i <= 32,
            out@.len() == i,
            forall|j: int| 0 <= j < i ==> out@[j] == k@[j],
        decreases 32 - i,
    {
        out.push(k[i]);
        i += 1;
    }
    proof {
        assert(out@ =~= k@);
    }
    out
}

fn tag_tenant() -> (r: Vec<u8>)
    ensures
        r@ == tenant_tag(),
{
    let mut v: Vec<u8> = Vec::new();
    v.push(116u8);
    v.push(101u8);
    v.push(110u8);
    v.push(97u8);
    v.push(110u8);
    v.push(116u8);
    proof {
        assert(v@ =~= tenant_tag());
    }
    v
}

fn tag_user_entry() -> (r: Vec<u8>)
    ensures
        r@ == user_entry_tag(),
{
    let mut v: Vec<u8> = Vec::new();
    v.push(117u8);
    v.push(115u8);
    v.push(101u8);
    v.push(114u8);
    proof {
        assert(v@ =~= user_entry_tag());
    }
    v
}

fn tag_vault() -> (r: Vec<u8>)
    ensures
        r@ == vault_tag(),
{
    let mut v: Vec<u8> = Vec::new();
    v.push(118u8);
    v.push(97u8);
    v.push(117u8);
    v.push(108u8);
    v.push(116u8);
    proof {
        assert(v@ =~= vault_tag());
    }
    v
}

/// The derived address and bump of the tenant record owned by `admin`, under
/// `program_id`. Deterministic: the same inputs always yield the same pair.
pub fn derive_tenant_address(program_id: &[u8; 32], admin: &[u8; 32]) -> (r: Option<(Vec<u8>, u8)>)
    ensures
        r is Some <==> derived_pda(tenant_seeds_v(admin@), program_id@) is Some,
        r matches Some(p) ==> Some((p.0@, p.1)) == derived_pda(tenant_seeds_v(admin@), program_id@)
            && p.0@.len() == 32,
{
    let mut seeds: Vec<Vec<u8>> = Vec::new();
    seeds.push(tag_tenant());
    seeds.push(key_to_vec(admin));
    proof {
        assert(seeds.deep_view() =~~= tenant_seeds_v(admin@));
    }
    find_pda(&seeds, program_id)
}

/// The derived address and bump of the ledger entry for (tenant, user), under
/// `program_id`. Deterministic: the same inputs always yield the same pair.
pub fn derive_user_entry_address(
    program_id: &[u8; 32],
    tenant: &[u8; 32],
    user: &[u8; 32],
) -> (r: Option<(Vec<u8>, u8)>)
    ensures
        r is Some <==> derived_pda(user_entry_seeds_v(tenant@, user@), program_id@) is Some,
        r matches Some(p) ==> Some((p.0@, p.1)) == derived_pda(
            user_entry_seeds_v(tenant@, user@),
            program_id@,
        ) && p.0@.len() == 32,
{
    let mut seeds: Vec<Vec<u8>> = Vec::new();
    seeds.push(tag_user_entry());
    seeds.push(key_to_vec(tenant));
    seeds.push(key_to_vec(user));
    proof {
        assert(seeds.deep_view() =~~= user_entry_seeds_v(tenant@, user@));
    }
    find_pda(&seeds, program_id)
}

/// The derived address and bump of the vault paired with the ledger entry for
/// (tenant, user), under `program_id`. Deterministic: the same inputs always
/// yield the same pair. Together with the seed list, the bump completes the
/// derivation proof under which the settlement engine authorizes transfers
/// out of the vault.
pub fn derive_vault_address(
    program_id: &[u8; 32],
    tenant: &[u8; 32],
    user: &[u8; 32],
) -> (r: Option<(Vec<u8>, u8)>)
    ensures
        r is Some <==> derived_pda(vault_seeds_v(tenant@, user@), program_id@) is Some,
        r matches Some(p) ==> Some((p.0@, p.1)) == derived_pda(
            vault_seeds_v(tenant@, user@),
            program_id@,
        ) && p.0@.len() == 32,
{
    let mut seeds: Vec<Vec<u8>> = Vec::new();
    seeds.push(tag_vault());
    seeds.push(key_to_vec(tenant));
    seeds.push(key_to_vec(user));
    proof {
        assert(seeds.deep_view() =~~= vault_seeds_v(tenant@, user@));
    }
    find_pda(&seeds, program_id)
}

} // verus!
