use vstd::prelude::*;

use crate::errors::LedgerError;
use crate::session::{deposit_outcome, exit_outcome, start_outcome};
use crate::state::{
    key_eq, make_tenant, make_user, padded, KeyV, Tenant, TenantV, User, UserV, VaultCustody,
};

verus! {

/// The mathematical model of the whole ledger: the fee configuration, the
/// tenant registry, and the user ledger entries with their paired vaults
/// (`entries[i]` is paired with `vaults[i]`).
pub struct LedgerV {
    pub rate_per_minute: u64,
    pub tenants: Seq<TenantV>,
    pub entries: Seq<UserV>,
    pub vaults: Seq<u64>,
}

/// There is a tenant record keyed by `admin`.
pub open spec fn has_tenant(l: LedgerV, admin: KeyV) -> bool {
    exists|i: int| 0 <= i < l.tenants.len() && l.tenants[i].admin == admin
}

/// The index of the tenant record keyed by `admin` (unique in a well-formed
/// ledger).
pub open spec fn tenant_index(l: LedgerV, admin: KeyV) -> int {
    choose|i: int| 0 <= i < l.tenants.len() && l.tenants[i].admin == admin
}

/// There is a ledger entry keyed by the (tenant, user) pair.
pub open spec fn has_entry(l: LedgerV, tenant: KeyV, user: KeyV) -> bool {
    exists|i: int|
        0 <= i < l.entries.len() && l.entries[i].tenant == tenant && l.entries[i].user == user
}

/// The index of the ledger entry keyed by the (tenant, user) pair (unique in
/// a well-formed ledger).
pub open spec fn entry_index(l: LedgerV, tenant: KeyV, user: KeyV) -> int {
    choose|i: int|
        0 <= i < l.entries.len() && l.entries[i].tenant == tenant && l.entries[i].user == user
}

/// Well-formedness of the ledger, established at creation and preserved by
/// every operation:
/// - every entry is paired with exactly one vault, and the entry's tracked
///   balance equals the vault's held value;
/// - there is at most one tenant per admin identity;
/// - there is at most one entry per (tenant, user) pair;
/// - every entry references a tenant that exists.
pub open spec fn wf_v(l: LedgerV) -> bool {
    &&& l.entries.len() == l.vaults.len()
    &&& (forall|i: int|
        0 <= i < l.entries.len() ==> #[trigger] l.entries[i].amount == l.vaults[i])
    &&& (forall|i: int, j: int|
        0 <= i < j < l.tenants.len() ==> #[trigger] l.tenants[i].admin != #[trigger] l.tenants[j].admin)
    &&& (forall|i: int, j: int|
        0 <= i < j < l.entries.len() ==> !(#[trigger] l.entries[i].tenant == #[trigger] l.entries[j].tenant
            && l.entries[i].user == l.entries[j].user))
    &&& (forall|i: int|
        0 <= i < l.entries.len() ==> has_tenant(l, #[trigger] l.entries[i].tenant))
}

/// The exact outcome of creating a tenant: an empty name is rejected, a second
/// tenant under the same admin is rejected leaving the first untouched, and
/// otherwise a record with the truncated name, the creation time and the
/// derivation bump is appended.
pub open spec fn init_tenant_v(l: LedgerV, admin: KeyV, name: Seq<u8>, bump: u8, now: i64) -> (
    LedgerV,
    Result<(), LedgerError>,
) {
    if name.len() == 0 {
        (l, Err(LedgerError::EmptyName))
    } else if has_tenant(l, admin) {
        (l, Err(LedgerError::AlreadyExists))
    } else {
        (
            LedgerV {
                tenants: l.tenants.push(
                    TenantV { admin, name: padded(name, 32), created_at: now, bump },
                ),
                ..l
            },
            Ok(()),
        )
    }
}

/// The exact outcome of opening a ledger entry: the tenant must already
/// exist, the plate must be non-empty, and the (tenant, user) pair must be
/// new. The entry starts idle with a zero balance, and its paired vault is
/// reserved holding no value.
pub open spec fn init_user_v(
    l: LedgerV,
    tenant: KeyV,
    user: KeyV,
    plate: Seq<u8>,
    vault_bump: u8,
    state_bump: u8,
    now: i64,
) -> (LedgerV, Result<(), LedgerError>) {
    if !has_tenant(l, tenant) {
        (l, Err(LedgerError::NotFound))
    } else if plate.len() == 0 {
        (l, Err(LedgerError::EmptyPlate))
    } else if has_entry(l, tenant, user) {
        (l, Err(LedgerError::AlreadyExists))
    } else {
        (
            LedgerV {
                entries: l.entries.push(
                    UserV {
                        user,
                        tenant,
                        time_stamp: now,
                        is_parked: false,
                        amount: 0,
                        vault_bump,
                        state_bump,
                        number_plate: padded(plate, 16),
                    },
                ),
                vaults: l.vaults.push(0u64),
                ..l
            },
            Ok(()),
        )
    }
}

/// The exact outcome of a deposit addressed by (tenant, user): the entry must
/// exist, and the per-entry deposit outcome is committed at its index only
/// when it succeeds; any failure leaves the whole ledger unchanged.
pub open spec fn deposit_v(l: LedgerV, tenant: KeyV, user: KeyV, amount: u64) -> (
    LedgerV,
    Result<(), LedgerError>,
) {
    if !has_entry(l, tenant, user) {
        (l, Err(LedgerError::NotFound))
    } else {
        let i = entry_index(l, tenant, user);
        let o = deposit_outcome(l.entries[i], l.vaults[i], amount);
        if o.2 is Ok {
            (LedgerV { entries: l.entries.update(i, o.0), vaults: l.vaults.update(i, o.1), ..l }, o.2)
        } else {
            (l, o.2)
        }
    }
}

/// The exact outcome of a session start addressed by (tenant, user): the
/// entry must exist and be idle; on success it is parked as of `now`.
pub open spec fn start_v(l: LedgerV, tenant: KeyV, user: KeyV, now: i64) -> (
    LedgerV,
    Result<(), LedgerError>,
) {
    if !has_entry(l, tenant, user) {
        (l, Err(LedgerError::NotFound))
    } else {
        let i = entry_index(l, tenant, user);
        let o = start_outcome(l.entries[i], now);
        if o.1 is Ok {
            (LedgerV { entries: l.entries.update(i, o.0), ..l }, o.1)
        } else {
            (l, o.1)
        }
    }
}

/// The exact outcome of a session exit addressed by (tenant, user): the entry
/// must exist and be parked; on success the whole-minute fee (at the ledger's
/// configured rate) leaves the vault, the tracked balance follows, and the
/// entry returns to idle. The result carries the settled fee.
pub open spec fn exit_v(l: LedgerV, tenant: KeyV, user: KeyV, now: i64) -> (
    LedgerV,
    Result<u64, LedgerError>,
) {
    if !has_entry(l, tenant, user) {
        (l, Err(LedgerError::NotFound))
    } else {
        let i = entry_index(l, tenant, user);
        let o = exit_outcome(l.entries[i], l.vaults[i], now, l.rate_per_minute);
        if o.2 is Ok {
            (LedgerV { entries: l.entries.update(i, o.0), vaults: l.vaults.update(i, o.1), ..l }, o.2)
        } else {
            (l, o.2)
        }
    }
}

/// The explicit keyed store holding every persisted record: tenants keyed by
/// their admin identity, and ledger entries (each paired with its vault at
/// the same index) keyed by the (tenant, user) pair.
pub struct Ledger {
    rate_per_minute: u64,
    tenants: Vec<Tenant>,
    entries: Vec<User>,
    vaults: Vec<VaultCustody>,
}

impl View for Ledger {
    type V = LedgerV;

    closed spec fn view(&self) -> LedgerV {
        LedgerV {
            rate_per_minute: self.rate_per_minute,
            tenants: self.tenants@.map_values(|t: Tenant| t@),
            entries: self.entries@.map_values(|u: User| u@),
            vaults: self.vaults@.map_values(|v: VaultCustody| v@),
        }
    }
}

impl Ledger {
    /// An empty ledger configured to bill `rate_per_minute` per full minute.
    pub fn new(rate_per_minute: u64) -> (r: Ledger)
        ensures
            r@.rate_per_minute == rate_per_minute,
            r@.tenants.len() == 0,
            r@.entries.len() == 0,
            r@.vaults.len() == 0,
            wf_v(r@),
    {
        Ledger {
            rate_per_minute,
            tenants: Vec::new(),
            entries: Vec::new(),
            vaults: Vec::new(),
        }
    }

    /// The configured whole-minute billing rate.
    pub fn rate_per_minute(&self) -> (r: u64)
        ensures
            r == self@.rate_per_minute,
    {
        self.rate_per_minute
    }

    fn find_tenant(&self, admin: &[u8; 32]) -> (r: Option<usize>)
        ensures
            match r {
                Some(i) => 0 <= i < self@.tenants.len() && self@.tenants[i as int].admin == admin@,
                None => !has_tenant(self@, admin@),
            },
    {
        let mut i: usize = 0;
        while i < self.tenants.len()
            invariant
                0 <= i <= self.tenants.len(),
                self@.tenants.len() == self.tenants.len(),
                forall|j: int| 0 <= j < i ==> self@.tenants[j].admin != admin@,
            decreases self.tenants.len() - i,
        {
            if key_eq(&self.tenants[i].admin, admin) {
                return Some(i);
            }
            i += 1;
        }
        None
    }

    fn find_entry(&self, tenant: &[u8; 32], user: &[u8; 32]) -> (r: Option<usize>)
        ensures
            match r {
                Some(i) => 0 <= i < self@.entries.len() && self@.entries[i as int].tenant
                    == tenant@ && self@.entries[i as int].user == user@,
                None => !has_entry(self@, tenant@, user@),
            },
    {
        let mut i: usize = 0;
        while i < self.entries.len()
            invariant
                0 <= i <= self.entries.len(),
                self@.entries.len() == self.entries.len(),
                forall|j: int|
                    0 <= j < i ==> !(#[trigger] self@.entries[j].tenant == tenant@
                        && self@.entries[j].user == user@),
            decreases self.entries.len() - i,
        {
            if key_eq(&self.entries[i].tenant, tenant) && key_eq(&self.entries[i].user, user) {
                return Some(i);
            }
            i += 1;
        }
        None
    }

    /// Creates the tenant record for `admin`, stamped with the creation time
    /// `now` and carrying the address-derivation `bump`. Exactly one tenant
    /// can ever exist per admin identity.
    pub fn init_tenant(&mut self, admin: &[u8; 32], name: &Vec<u8>, bump: u8, now: i64) -> (r:
        Result<(), LedgerError>)
        requires
            wf_v(old(self)@),
        ensures
            r == init_tenant_v(old(self)@, admin@, name@, bump, now).1,
            final(self)@ == init_tenant_v(old(self)@, admin@, name@, bump, now).0,
            wf_v(final(self)@),
    {
        let t = match make_tenant(admin, name, bump, now) {
            Ok(t) => t,
            Err(e) => {
                return Err(e);
            },
        };
        if self.find_tenant(admin).is_some() {
            return Err(LedgerError::AlreadyExists);
        }
        self.tenants.push(t);
        proof {
            let l2 = init_tenant_v(old(self)@, admin@, name@, bump, now).0;
            assert(self@.tenants =~~= l2.tenants);
            assert(self@ =~~= l2);
            assert forall|i: int| 0 <= i < self@.entries.len() implies has_tenant(
                self@,
                #[trigger] self@.entries[i].tenant,
            ) by {
                let k = choose|k: int|
                    0 <= k < old(self)@.tenants.len() && old(self)@.tenants[k].admin == old(
                        self,
                    )@.entries[i].tenant;
                assert(self@.tenants[k].admin == self@.entries[i].tenant);
            }
        }
        Ok(())
    }

    /// The tenant record keyed by `admin`, or `NotFound`.
    pub fn lookup_tenant(&self, admin: &[u8; 32]) -> (r: Result<Tenant, LedgerError>)
        requires
            wf_v(self@),
        ensures
            has_tenant(self@, admin@) ==> (r matches Ok(t) && t@ == self@.tenants[tenant_index(
                self@,
                admin@,
            )]),
            !has_tenant(self@, admin@) ==> r == Err::<Tenant, LedgerError>(LedgerError::NotFound),
    {
        match self.find_tenant(admin) {
            Some(i) => {
                let t = self.tenants[i];
                proof {
                    let j = tenant_index(self@, admin@);
                    assert(self@.tenants[j].admin == admin@);
                    assert(j == i as int);
                }
                Ok(t)
            },
            None => Err(LedgerError::NotFound),
        }
    }

    /// The ledger entry keyed by the (tenant, user) pair, or `NotFound`.
    pub fn lookup_entry(&self, tenant_admin: &[u8; 32], user: &[u8; 32]) -> (r: Result<
        User,
        LedgerError,
    >)
        requires
            wf_v(self@),
        ensures
            has_entry(self@, tenant_admin@, user@) ==> (r matches Ok(e) && e@ == self@.entries[
                entry_index(self@, tenant_admin@, user@)
            ]),
            !has_entry(self@, tenant_admin@, user@) ==> r == Err::<User, LedgerError>(
                LedgerError::NotFound,
            ),
    {
        match self.find_entry(tenant_admin, user) {
            Some(i) => {
                let e = self.entries[i];
                proof {
                    let j = entry_index(self@, tenant_admin@, user@);
                    assert(self@.entries[j].tenant == tenant_admin@);
                    assert(j == i as int);
                }
                Ok(e)
            },
            None => Err(LedgerError::NotFound),
        }
    }

    /// The value held by the vault paired with the entry keyed by the
    /// (tenant, user) pair, or `NotFound`.
    pub fn vault_value(&self, tenant_admin: &[u8; 32], user: &[u8; 32]) -> (r: Result<
        u64,
        LedgerError,
    >)
        requires
            wf_v(self@),
        ensures
            has_entry(self@, tenant_admin@, user@) ==> r == Ok::<u64, LedgerError>(
                self@.vaults[entry_index(self@, tenant_admin@, user@)],
            ),
            !has_entry(self@, tenant_admin@, user@) ==> r == Err::<u64, LedgerError>(
                LedgerError::NotFound,
            ),
    {
        match self.find_entry(tenant_admin, user) {
            Some(i) => {
                proof {
                    let j = entry_index(self@, tenant_admin@, user@);
                    assert(self@.entries[j].tenant == tenant_admin@);
                    assert(j == i as int);
                }
                Ok(self.vaults[i].value)
            },
            None => Err(LedgerError::NotFound),
        }
    }

    /// Opens the ledger entry for (tenant, user) with its paired, empty
    /// vault. Requires the tenant to exist; stores the truncated plate and
    /// the derivation bumps of the entry and the vault.
    pub fn init_user(
        &mut self,
        user: &[u8; 32],
        tenant_admin: &[u8; 32],
        plate: &Vec<u8>,
        vault_bump: u8,
        state_bump: u8,
        now: i64,
    ) -> (r: Result<(), LedgerError>)
        requires
            wf_v(old(self)@),
        ensures
            r == init_user_v(old(self)@, tenant_admin@, user@, plate@, vault_bump, state_bump, now).1,
            final(self)@ == init_user_v(
                old(self)@,
                tenant_admin@,
                user@,
                plate@,
                vault_bump,
                state_bump,
                now,
            ).0,
            wf_v(final(self)@),
    {
        if self.find_tenant(tenant_admin).is_none() {
            return Err(LedgerError::NotFound);
        }
        let e = match make_user(user, tenant_admin, plate, vault_bump, state_bump, now) {
            Ok(e) => e,
            Err(err) => {
                return Err(err);
            },
        };
        if self.find_entry(tenant_admin, user).is_some() {
            return Err(LedgerError::AlreadyExists);
        }
        self.entries.push(e);
        self.vaults.push(VaultCustody { value: 0 });
        proof {
            let l2 = init_user_v(
                old(self)@,
                tenant_admin@,
                user@,
                plate@,
                vault_bump,
                state_bump,
                now,
            ).0;
            assert(self@.entries =~~= l2.entries);
            assert(self@.vaults =~~= l2.vaults);
            assert(self@ =~~= l2);
            assert forall|i: int| 0 <= i < self@.entries.len() implies has_tenant(
                self@,
                #[trigger] self@.entries[i].tenant,
            ) by {
                if i < old(self)@.entries.len() {
                    let k = choose|k: int|
                        0 <= k < old(self)@.tenants.len() && old(self)@.tenants[k].admin == old(
                            self,
                        )@.entries[i].tenant;
                    assert(self@.tenants[k].admin == self@.entries[i].tenant);
                } else {
                    let k = choose|k: int|
                        0 <= k < old(self)@.tenants.len() && old(self)@.tenants[k].admin
                            == tenant_admin@;
                    assert(self@.tenants[k].admin == self@.entries[i].tenant);
                }
            }
        }
        Ok(())
    }

    /// Deposits `amount` into the vault of the entry keyed by
    /// (tenant, user) and updates the tracked balance. On any error the
    /// ledger is left exactly as it was.
    pub fn deposit(&mut self, tenant_admin: &[u8; 32], user: &[u8; 32], amount: u64) -> (r: Result<
        (),
        LedgerError,
    >)
        requires
            wf_v(old(self)@),
        ensures
            r == deposit_v(old(self)@, tenant_admin@, user@, amount).1,
            final(self)@ == deposit_v(old(self)@, tenant_admin@, user@, amount).0,
            wf_v(final(self)@),
            r is Ok ==> {
                let i = entry_index(old(self)@, tenant_admin@, user@);
                final(self)@.entries[i].amount == final(self)@.vaults[i]
            },
    {
        let i = match self.find_entry(tenant_admin, user) {
            Some(i) => i,
            None => {
                return Err(LedgerError::NotFound);
            },
        };
        proof {
            let j = entry_index(self@, tenant_admin@, user@);
            assert(self@.entries[j].tenant == tenant_admin@);
            assert(j == i as int);
        }
        let mut e = self.entries[i];
        let mut v = self.vaults[i];
        let r = crate::session::deposit(&mut e, &mut v, amount);
        self.entries.set(i, e);
        self.vaults.set(i, v);
        proof {
            let l2 = deposit_v(old(self)@, tenant_admin@, user@, amount).0;
            assert(self@.entries =~~= l2.entries);
            assert(self@.vaults =~~= l2.vaults);
            assert(self@ =~~= l2);
            Self::lemma_update_keeps_wf(old(self)@, self@, i as int);
        }
        r
    }

    /// Starts a parked session, as of `now`, on the entry keyed by
    /// (tenant, user).
    pub fn record_parking_start(
        &mut self,
        tenant_admin: &[u8; 32],
        user: &[u8; 32],
        now: i64,
    ) -> (r: Result<(), LedgerError>)
        requires
            wf_v(old(self)@),
        ensures
            r == start_v(old(self)@, tenant_admin@, user@, now).1,
            final(self)@ == start_v(old(self)@, tenant_admin@, user@, now).0,
            wf_v(final(self)@),
    {
        let i = match self.find_entry(tenant_admin, user) {
            Some(i) => i,
            None => {
                return Err(LedgerError::NotFound);
            },
        };
        proof {
            let j = entry_index(self@, tenant_admin@, user@);
            assert(self@.entries[j].tenant == tenant_admin@);
            assert(j == i as int);
        }
        let mut e = self.entries[i];
        let r = crate::session::record_parking_start(&mut e, now);
        self.entries.set(i, e);
        proof {
            let l2 = start_v(old(self)@, tenant_admin@, user@, now).0;
            assert(self@.entries =~~= l2.entries);
            assert(self@ =~~= l2);
            Self::lemma_update_keeps_wf(old(self)@, self@, i as int);
        }
        r
    }

    /// Ends the parked session on the entry keyed by (tenant, user), settling
    /// the whole-minute fee at the configured rate out of the paired vault.
    /// Returns the settled fee, which the caller forwards to the fee
    /// recipient under the vault's derivation proof.
    pub fn process_exit(&mut self, tenant_admin: &[u8; 32], user: &[u8; 32], now: i64) -> (r:
        Result<u64, LedgerError>)
        requires
            wf_v(old(self)@),
        ensures
            r == exit_v(old(self)@, tenant_admin@, user@, now).1,
            final(self)@ == exit_v(old(self)@, tenant_admin@, user@, now).0,
            wf_v(final(self)@),
            r is Ok ==> {
                let i = entry_index(old(self)@, tenant_admin@, user@);
                final(self)@.entries[i].amount == final(self)@.vaults[i]
                    && !final(self)@.entries[i].is_parked
            },
    {
        let i = match self.find_entry(tenant_admin, user) {
            Some(i) => i,
            None => {
                return Err(LedgerError::NotFound);
            },
        };
        proof {
            let j = entry_index(self@, tenant_admin@, user@);
            assert(self@.entries[j].tenant == tenant_admin@);
            assert(j == i as int);
        }
        let mut e = self.entries[i];
        let mut v = self.vaults[i];
        let r = crate::session::process_exit(&mut e, &mut v, now, self.rate_per_minute);
        self.entries.set(i, e);
        self.vaults.set(i, v);
        proof {
            let l2 = exit_v(old(self)@, tenant_admin@, user@, now).0;
            assert(self@.entries =~~= l2.entries);
            assert(self@.vaults =~~= l2.vaults);
            assert(self@ =~~= l2);
            Self::lemma_update_keeps_wf(old(self)@, self@, i as int);
        }
        r
    }

    /// An update at one index that keeps the entry's keys and the
    /// balance/vault pairing keeps the whole ledger well-formed.
    proof fn lemma_update_keeps_wf(l1: LedgerV, l2: LedgerV, i: int)
        requires
            wf_v(l1),
            0 <= i < l1.entries.len(),
            l2.tenants == l1.tenants,
            l2.entries.len() == l1.entries.len(),
            l2.vaults.len() == l1.vaults.len(),
            forall|j: int|
                0 <= j < l1.entries.len() && j != i ==> l2.entries[j] == l1.entries[j]
                    && l2.vaults[j] == l1.vaults[j],
            l2.entries[i].tenant == l1.entries[i].tenant,
            l2.entries[i].user == l1.entries[i].user,
            l2.entries[i].amount == l2.vaults[i],
        ensures
            wf_v(l2),
    {
        assert forall|k: int| 0 <= k < l2.entries.len() implies has_tenant(
            l2,
            #[trigger] l2.entries[k].tenant,
        ) by {
            let w = choose|w: int|
                0 <= w < l1.tenants.len() && l1.tenants[w].admin == l1.entries[k].tenant;
            assert(l2.tenants[w].admin == l2.entries[k].tenant);
        }
    }
}

/// In any well-formed ledger — and every operation returns one — each entry's
/// tracked balance equals its paired vault's held value. In particular this
/// holds for every entry after any successful deposit or session exit.
pub proof fn lemma_wf_balances_match_vaults(l: LedgerV)
    requires
        wf_v(l),
    ensures
        forall|i: int| 0 <= i < l.entries.len() ==> #[trigger] l.entries[i].amount == l.vaults[i],
{
}

/// Creating a tenant is create-once per admin identity: after one successful
/// creation, a second attempt under the same admin (with any valid name)
/// fails with `AlreadyExists` and leaves the ledger — the first record
/// included — exactly as the first creation left it.
pub proof fn lemma_init_tenant_once(
    l: LedgerV,
    admin: KeyV,
    name1: Seq<u8>,
    bump1: u8,
    now1: i64,
    name2: Seq<u8>,
    bump2: u8,
    now2: i64,
)
    requires
        init_tenant_v(l, admin, name1, bump1, now1).1 is Ok,
        name2.len() != 0,
    ensures
        ({
            let l1 = init_tenant_v(l, admin, name1, bump1, now1).0;
            init_tenant_v(l1, admin, name2, bump2, now2) == (
                l1,
                Err::<(), LedgerError>(LedgerError::AlreadyExists),
            )
        }),
{
    let l1 = init_tenant_v(l, admin, name1, bump1, now1).0;
    assert(l1.tenants[l.tenants.len() as int].admin == admin);
    assert(has_tenant(l1, admin));
}

} // verus!
