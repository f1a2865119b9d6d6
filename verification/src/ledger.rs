use vstd::prelude::*;

use crate::derivation::{
    clone_bytes, derive_address, pda_of, record_seed_list, record_seeds, treasury_seed_list,
    treasury_seeds,
};
use crate::errors::VestingError;
use crate::schema::{
    TreasuryAccount, TreasuryAccountV, VesingAccount, VesingAccountV, MAX_COMPANY_NAME_LEN,
    TREASURY_ACCOUNT_SPACE, VESTING_ACCOUNT_SPACE,
};

verus! {

/// Everything one derived address holds on the ledger.
pub enum AccountData {
    /// A per-company vesting record.
    Record(VesingAccount),
    /// A token holding account bound to a token type.
    Treasury(TreasuryAccount),
}

/// Mathematical image of an account's contents.
pub enum AccountDataV {
    Record(VesingAccountV),
    Treasury(TreasuryAccountV),
}

impl View for AccountData {
    type V = AccountDataV;

    open spec fn view(&self) -> AccountDataV {
        match self {
            AccountData::Record(rec) => AccountDataV::Record(rec@),
            AccountData::Treasury(tre) => AccountDataV::Treasury(tre@),
        }
    }
}

/// One initialized account: an address and what it holds.
pub struct LedgerEntry {
    pub address: Vec<u8>,
    pub data: AccountData,
}

/// Mathematical image of an initialized account.
pub struct LedgerEntryV {
    pub address: Seq<u8>,
    pub data: AccountDataV,
}

impl View for LedgerEntry {
    type V = LedgerEntryV;

    open spec fn view(&self) -> LedgerEntryV {
        LedgerEntryV { address: self.address@, data: self.data@ }
    }
}

/// The accounts this program has initialized, with the funding rate the host
/// ledger charges per persisted byte.
pub struct Ledger {
    /// Funding cost per persisted byte of a new account.
    pub rent_rate: u64,
    /// The initialized accounts, in order of creation.
    pub entries: Vec<LedgerEntry>,
}

/// Mathematical image of the ledger.
pub struct LedgerV {
    pub rent_rate: u64,
    pub entries: Seq<LedgerEntryV>,
}

impl View for Ledger {
    type V = LedgerV;

    open spec fn view(&self) -> LedgerV {
        LedgerV {
            rent_rate: self.rent_rate,
            entries: self.entries@.map_values(|e: LedgerEntry| e@),
        }
    }
}

/// The caller-resolved references that the creation operation takes: the
/// funding signer, the expected record address, the token type, and the
/// expected treasury address.
pub struct CreateVestingAccount {
    /// Identity of the signer funding the operation.
    pub signer: Vec<u8>,
    /// Caller-supplied address for the new vesting record.
    pub vesting_account: Vec<u8>,
    /// Identity of the pre-existing token type.
    pub mint: Vec<u8>,
    /// Caller-supplied address for the new treasury holding account.
    pub treasury_token_account: Vec<u8>,
}

/// Whether some account sits at an address.
pub open spec fn has_address(entries: Seq<LedgerEntryV>, address: Seq<u8>) -> bool {
    exists|i: int| 0 <= i < entries.len() && (#[trigger] entries[i].address) == address
}

/// What every single account must satisfy: a record's name fits the schema's
/// buffer, and a treasury account is self-custodied.
pub open spec fn entry_wf(e: LedgerEntryV) -> bool {
    match e.data {
        AccountDataV::Record(rec) => rec.company_name.len() <= MAX_COMPANY_NAME_LEN as int,
        AccountDataV::Treasury(tre) => tre.authority == e.address,
    }
}

/// Ledger well-formedness: addresses are initialized at most once, and every
/// account is well formed.
pub open spec fn ledger_entries_wf(entries: Seq<LedgerEntryV>) -> bool {
    &&& forall|i: int, j: int|
        0 <= i < j < entries.len() ==> (#[trigger] entries[i].address) != (
        #[trigger] entries[j].address)
    &&& forall|i: int| 0 <= i < entries.len() ==> entry_wf(#[trigger] entries[i])
}

/// Funding cost of one new account of a given persisted size.
pub open spec fn account_cost(rate: u64, space: u64) -> int {
    (rate as int) * (space as int)
}

/// Funding cost of the two accounts one creation allocates.
pub open spec fn total_cost(rate: u64) -> int {
    account_cost(rate, VESTING_ACCOUNT_SPACE) + account_cost(rate, TREASURY_ACCOUNT_SPACE)
}

/// The vesting record that a successful creation persists at the derived
/// record address.
pub open spec fn new_record_entry(
    signer: Seq<u8>,
    mint: Seq<u8>,
    name: Seq<u8>,
    rec: (Seq<u8>, u8),
    tre: (Seq<u8>, u8),
) -> LedgerEntryV {
    LedgerEntryV {
        address: rec.0,
        data: AccountDataV::Record(
            VesingAccountV {
                owner: signer,
                mint: mint,
                treasury_token_account: tre.0,
                company_name: name,
                treasury_bump: tre.1,
                bump: rec.1,
            },
        ),
    }
}

/// The self-custodied treasury holding account that a successful creation
/// persists at the derived treasury address.
pub open spec fn new_treasury_entry(mint: Seq<u8>, tre: (Seq<u8>, u8)) -> LedgerEntryV {
    LedgerEntryV {
        address: tre.0,
        data: AccountDataV::Treasury(TreasuryAccountV { mint: mint, authority: tre.0, amount: 0 }),
    }
}

/// The outcome of a creation attempt once both (address, bump) pairs are
/// derived: the resulting ledger, the signer's resulting balance, and the
/// report. Checks run in order -- name length, supplied addresses against the
/// derivation, absence of both accounts, funding -- and the first failure
/// leaves everything unchanged.
pub open spec fn create_checked_spec(
    l: LedgerV,
    balance: u64,
    signer: Seq<u8>,
    mint: Seq<u8>,
    name: Seq<u8>,
    supplied_record: Seq<u8>,
    supplied_treasury: Seq<u8>,
    rec: (Seq<u8>, u8),
    tre: (Seq<u8>, u8),
) -> (LedgerV, u64, Result<(), VestingError>) {
    if name.len() > MAX_COMPANY_NAME_LEN as int {
        (l, balance, Err(VestingError::SeedConstraintViolation))
    } else if rec.0 != supplied_record || tre.0 != supplied_treasury {
        (l, balance, Err(VestingError::AuthorityMismatch))
    } else if has_address(l.entries, rec.0) || has_address(l.entries, tre.0) || rec.0 == tre.0 {
        (l, balance, Err(VestingError::DuplicateAccount))
    } else if (balance as int) < total_cost(l.rent_rate) {
        (l, balance, Err(VestingError::InsufficientFunding))
    } else {
        (
            LedgerV {
                rent_rate: l.rent_rate,
                entries: l.entries.push(new_record_entry(signer, mint, name, rec, tre)).push(
                    new_treasury_entry(mint, tre),
                ),
            },
            ((balance as int) - total_cost(l.rent_rate)) as u64,
            Ok(()),
        )
    }
}

/// The outcome of the whole creation operation, derivation included: an
/// over-long name, or a seed list that admits no derived address, is rejected
/// before anything else is consulted.
pub open spec fn create_spec(
    l: LedgerV,
    balance: u64,
    signer: Seq<u8>,
    mint: Seq<u8>,
    name: Seq<u8>,
    supplied_record: Seq<u8>,
    supplied_treasury: Seq<u8>,
    program_id: Seq<u8>,
) -> (LedgerV, u64, Result<(), VestingError>) {
    if name.len() > MAX_COMPANY_NAME_LEN as int {
        (l, balance, Err(VestingError::SeedConstraintViolation))
    } else {
        match pda_of(record_seeds(name), program_id) {
            None => (l, balance, Err(VestingError::SeedConstraintViolation)),
            Some(rec) => match pda_of(treasury_seeds(name), program_id) {
                None => (l, balance, Err(VestingError::SeedConstraintViolation)),
                Some(tre) => create_checked_spec(
                    l,
                    balance,
                    signer,
                    mint,
                    name,
                    supplied_record,
                    supplied_treasury,
                    rec,
                    tre,
                ),
            },
        }
    }
}

/// Compare two byte strings for equality.
pub fn bytes_eq(a: &Vec<u8>, b: &Vec<u8>) -> (r: bool)
    ensures
        r <==> a@ == b@,
{
    if a.len() != b.len() {
        return false;
    }
    let mut i: usize = 0;
    while i < a.len()
        invariant
            a@.len() == b@.len(),
            i <= a@.len(),
            forall|k: int| 0 <= k < i ==> a@[k] == b@[k],
        decreases a@.len() - i,
    {
        if a[i] != b[i] {
            return false;
        }
        i = i + 1;
    }
    proof {
        assert(a@ =~= b@);
    }
    true
}

impl Ledger {
    /// Ledger well-formedness; creation establishes it and every operation
    /// preserves it.
    pub open spec fn wf(&self) -> bool {
        ledger_entries_wf(self@.entries)
    }

    /// A fresh ledger with a given funding rate and no initialized accounts.
    pub fn new(rent_rate: u64) -> (l: Ledger)
        ensures
            l.wf(),
            l@.entries == Seq::<LedgerEntryV>::empty(),
            l@.rent_rate == rent_rate,
    {
        let l = Ledger { rent_rate, entries: Vec::new() };
        proof {
            assert(l@.entries =~= Seq::<LedgerEntryV>::empty());
        }
        l
    }

    /// What sits at an address, if anything does.
    pub fn lookup(&self, address: &Vec<u8>) -> (r: Option<&AccountData>)
        ensures
            r is Some <==> has_address(self@.entries, address@),
            (r matches Some(d) ==> exists|i: int|
                0 <= i < self@.entries.len() && (#[trigger] self@.entries[i].address) == address@
                    && self@.entries[i].data == d@),
    {
        let mut j: usize = 0;
        while j < self.entries.len()
            invariant
                j <= self.entries.len(),
                forall|k: int| 0 <= k < j ==> (#[trigger] self@.entries[k].address) != address@,
            decreases self.entries.len() - j,
        {
            if bytes_eq(&self.entries[j].address, address) {
                proof {
                    assert(self@.entries[j as int].address == address@);
                }
                return Some(&self.entries[j].data);
            }
            j = j + 1;
        }
        None
    }

    /// Whether an account is already initialized at an address.
    pub fn contains_address(&self, address: &Vec<u8>) -> (r: bool)
        ensures
            r == has_address(self@.entries, address@),
    {
        self.lookup(address).is_some()
    }

    /// Allocate and initialize the vesting record and its treasury holding
    /// account from already-derived (address, bump) pairs, checking every
    /// precondition before any write; the caller-supplied addresses must
    /// match the derived ones.
    pub fn create_with_derived(
        &mut self,
        ctx: &CreateVestingAccount,
        balance: &mut u64,
        company_name: Vec<u8>,
        record_derived: (Vec<u8>, u8),
        treasury_derived: (Vec<u8>, u8),
    ) -> (r: Result<(), VestingError>)
        requires
            old(self).wf(),
        ensures
            final(self).wf(),
            ({
                let (l2, b2, res) = create_checked_spec(
                    old(self)@,
                    *old(balance),
                    ctx.signer@,
                    ctx.mint@,
                    company_name@,
                    ctx.vesting_account@,
                    ctx.treasury_token_account@,
                    (record_derived.0@, record_derived.1),
                    (treasury_derived.0@, treasury_derived.1),
                );
                final(self)@ == l2 && *final(balance) == b2 && r == res
            }),
    {
        if company_name.len() > MAX_COMPANY_NAME_LEN {
            return Err(VestingError::SeedConstraintViolation);
        }
        if !bytes_eq(&record_derived.0, &ctx.vesting_account) || !bytes_eq(
            &treasury_derived.0,
            &ctx.treasury_token_account,
        ) {
            return Err(VestingError::AuthorityMismatch);
        }
        if self.contains_address(&record_derived.0) || self.contains_address(&treasury_derived.0)
            || bytes_eq(&record_derived.0, &treasury_derived.0) {
            return Err(VestingError::DuplicateAccount);
        }
        let due: u64 = match rent_due(self.rent_rate) {
            None => {
                return Err(VestingError::InsufficientFunding);
            },
            Some(c) => c,
        };
        if *balance < due {
            return Err(VestingError::InsufficientFunding);
        }
        let ghost old_entries = self@.entries;
        let (record_address, record_bump) = record_derived;
        let (treasury_address, treasury_bump) = treasury_derived;
        let record = VesingAccount {
            owner: clone_bytes(&ctx.signer),
            mint: clone_bytes(&ctx.mint),
            treasury_token_account: clone_bytes(&treasury_address),
            company_name,
            treasury_bump,
            bump: record_bump,
        };
        self.entries.push(LedgerEntry { address: record_address, data: AccountData::Record(record) });
        let treasury = TreasuryAccount {
            mint: clone_bytes(&ctx.mint),
            authority: clone_bytes(&treasury_address),
            amount: 0,
        };
        self.entries.push(
            LedgerEntry { address: treasury_address, data: AccountData::Treasury(treasury) },
        );
        *balance = *balance - due;
        proof {
            let rec = (record_derived.0@, record_derived.1);
            let tre = (treasury_derived.0@, treasury_derived.1);
            let e1 = new_record_entry(ctx.signer@, ctx.mint@, company_name@, rec, tre);
            let e2 = new_treasury_entry(ctx.mint@, tre);
            assert(self@.entries =~= old_entries.push(e1).push(e2));
            assert forall|i: int, j: int|
                0 <= i < j < self@.entries.len() implies (#[trigger] self@.entries[i].address) != (
            #[trigger] self@.entries[j].address) by {
                if j < old_entries.len() {
                } else if j == old_entries.len() {
                    assert(!has_address(old_entries, rec.0));
                } else {
                    assert(!has_address(old_entries, tre.0));
                }
            }
            assert forall|i: int| 0 <= i < self@.entries.len() implies entry_wf(
                #[trigger] self@.entries[i],
            ) by {
                if i < old_entries.len() {
                    assert(entry_wf(old_entries[i]));
                }
            }
        }
        Ok(())
    }

    /// Register a company's vesting arrangement: derive the record and
    /// treasury addresses from the company name, check every precondition,
    /// then allocate and initialize both accounts -- all or nothing.
    pub fn create_vesting_account(
        &mut self,
        ctx: &CreateVestingAccount,
        balance: &mut u64,
        company_name: Vec<u8>,
        program_id: &[u8; 32],
    ) -> (r: Result<(), VestingError>)
        requires
            old(self).wf(),
        ensures
            final(self).wf(),
            ({
                let (l2, b2, res) = create_spec(
                    old(self)@,
                    *old(balance),
                    ctx.signer@,
                    ctx.mint@,
                    company_name@,
                    ctx.vesting_account@,
                    ctx.treasury_token_account@,
                    program_id@,
                );
                final(self)@ == l2 && *final(balance) == b2 && r == res
            }),
    {
        if company_name.len() > MAX_COMPANY_NAME_LEN {
            return Err(VestingError::SeedConstraintViolation);
        }
        let record_seed_bytes = record_seed_list(&company_name);
        let record_derived = match derive_address(&record_seed_bytes, program_id) {
            Err(e) => {
                return Err(e);
            },
            Ok(p) => p,
        };
        let treasury_seed_bytes = treasury_seed_list(&company_name);
        let treasury_derived = match derive_address(&treasury_seed_bytes, program_id) {
            Err(e) => {
                return Err(e);
            },
            Ok(p) => p,
        };
        self.create_with_derived(ctx, balance, company_name, record_derived, treasury_derived)
    }
}

/// Compute the signer's total funding cost for the two accounts one creation
/// allocates, where it fits in a machine word.
fn rent_due(rate: u64) -> (r: Option<u64>)
    ensures
        (r matches Some(c) ==> c as int == total_cost(rate)),
        (r is None ==> total_cost(rate) > u64::MAX),
{
    let spaces: u64 = VESTING_ACCOUNT_SPACE + TREASURY_ACCOUNT_SPACE;
    proof {
        let r = rate as int;
        assert(r * 160 + r * 165 == r * 325) by (nonlinear_arith);
        assert(total_cost(rate) == (rate as int) * (spaces as int));
    }
    rate.checked_mul(spaces)
}

/// First creation for a company succeeds when every precondition holds --
/// the name fits, the caller supplies the derived addresses, both addresses
/// are uninitialized and distinct, and the signer can fund both accounts --
/// and repeating it at once with the same inputs fails with DuplicateAccount
/// and leaves the ledger and the balance unchanged.
pub proof fn lemma_create_then_duplicate(
    l: LedgerV,
    balance: u64,
    signer: Seq<u8>,
    mint: Seq<u8>,
    name: Seq<u8>,
    rec: (Seq<u8>, u8),
    tre: (Seq<u8>, u8),
)
    requires
        name.len() <= MAX_COMPANY_NAME_LEN as int,
        !has_address(l.entries, rec.0),
        !has_address(l.entries, tre.0),
        rec.0 != tre.0,
        balance as int >= total_cost(l.rent_rate),
    ensures
        ({
            let (l1, b1, r1) = create_checked_spec(
                l,
                balance,
                signer,
                mint,
                name,
                rec.0,
                tre.0,
                rec,
                tre,
            );
            let (l2, b2, r2) = create_checked_spec(
                l1,
                b1,
                signer,
                mint,
                name,
                rec.0,
                tre.0,
                rec,
                tre,
            );
            r1 == Ok::<(), VestingError>(()) && r2 == Err::<(), VestingError>(
                VestingError::DuplicateAccount,
            ) && l2 == l1 && b2 == b1
        }),
{
    let (l1, b1, r1) = create_checked_spec(l, balance, signer, mint, name, rec.0, tre.0, rec, tre);
    assert(l1.entries[l.entries.len() as int].address == rec.0);
    assert(has_address(l1.entries, rec.0));
}

/// An over-long company name is rejected before any derivation or write: the
/// report is SeedConstraintViolation and neither account is created.
pub proof fn lemma_long_name_rejected(
    l: LedgerV,
    balance: u64,
    signer: Seq<u8>,
    mint: Seq<u8>,
    name: Seq<u8>,
    supplied_record: Seq<u8>,
    supplied_treasury: Seq<u8>,
    program_id: Seq<u8>,
)
    requires
        name.len() > MAX_COMPANY_NAME_LEN as int,
    ensures
        create_spec(l, balance, signer, mint, name, supplied_record, supplied_treasury, program_id)
            == (l, balance, Err::<(), VestingError>(VestingError::SeedConstraintViolation)),
{
}

/// Atomicity: a creation attempt that reports any failure leaves the ledger
/// and the signer's balance exactly as they were.
pub proof fn lemma_failure_leaves_no_trace(
    l: LedgerV,
    balance: u64,
    signer: Seq<u8>,
    mint: Seq<u8>,
    name: Seq<u8>,
    supplied_record: Seq<u8>,
    supplied_treasury: Seq<u8>,
    program_id: Seq<u8>,
)
    ensures
        ({
            let (l1, b1, r1) = create_spec(
                l,
                balance,
                signer,
                mint,
                name,
                supplied_record,
                supplied_treasury,
                program_id,
            );
            r1 is Err ==> l1 == l && b1 == balance
        }),
{
}

/// A successful creation persists exactly two new accounts -- the record at
/// the derived record address, holding the signer as owner, the supplied
/// mint, the derived treasury address, the company name and both bumps; and
/// the self-custodied treasury at the derived treasury address -- and charges
/// the signer the cost of both; every account already on the ledger stays as
/// it was.
pub proof fn lemma_success_persists_exactly(
    l: LedgerV,
    balance: u64,
    signer: Seq<u8>,
    mint: Seq<u8>,
    name: Seq<u8>,
    supplied_record: Seq<u8>,
    supplied_treasury: Seq<u8>,
    rec: (Seq<u8>, u8),
    tre: (Seq<u8>, u8),
)
    ensures
        ({
            let (l1, b1, r1) = create_checked_spec(
                l,
                balance,
                signer,
                mint,
                name,
                supplied_record,
                supplied_treasury,
                rec,
                tre,
            );
            r1 is Ok ==> {
                &&& l1.entries.len() == l.entries.len() + 2
                &&& forall|i: int| 0 <= i < l.entries.len() ==> (#[trigger] l1.entries[i])
                    == l.entries[i]
                &&& l1.entries[l.entries.len() as int] == new_record_entry(
                    signer,
                    mint,
                    name,
                    rec,
                    tre,
                )
                &&& l1.entries[l.entries.len() as int + 1] == new_treasury_entry(mint, tre)
                &&& b1 as int == balance - total_cost(l.rent_rate)
                &&& l1.rent_rate == l.rent_rate
            }
        }),
{
}

/// Self-custody: in a well-formed ledger every treasury holding account's
/// transfer authority is its own address.
pub proof fn lemma_treasury_self_custody(entries: Seq<LedgerEntryV>, i: int)
    requires
        ledger_entries_wf(entries),
        0 <= i < entries.len(),
        entries[i].data is Treasury,
    ensures
        entries[i].data matches AccountDataV::Treasury(tre) && tre.authority
            == entries[i].address,
{
    assert(entry_wf(entries[i]));
}

} // verus!
