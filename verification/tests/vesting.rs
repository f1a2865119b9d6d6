use vesting::derivation::{derive_address, record_seed_list, treasury_seed_list};
use vesting::errors::VestingError;
use vesting::ledger::{AccountData, CreateVestingAccount, Ledger};
use vesting::schema::{TREASURY_ACCOUNT_SPACE, VESTING_ACCOUNT_SPACE};

fn program_id() -> [u8; 32] {
    let mut p = [0u8; 32];
    p[0] = 7;
    p[31] = 9;
    p
}

fn derived_pair(name: &[u8], pid: &[u8; 32]) -> ((Vec<u8>, u8), (Vec<u8>, u8)) {
    let name_vec = name.to_vec();
    let rec = derive_address(&record_seed_list(&name_vec), pid).unwrap();
    let tre = derive_address(&treasury_seed_list(&name_vec), pid).unwrap();
    (rec, tre)
}

fn ctx_for(name: &[u8], pid: &[u8; 32]) -> CreateVestingAccount {
    let (rec, tre) = derived_pair(name, pid);
    CreateVestingAccount {
        signer: vec![1u8; 32],
        vesting_account: rec.0,
        mint: vec![2u8; 32],
        treasury_token_account: tre.0,
    }
}

#[test]
fn first_create_succeeds_then_duplicate_fails() {
    let pid = program_id();
    let mut ledger = Ledger::new(1);
    let mut balance: u64 = 10_000;
    let ctx = ctx_for(b"Acme", &pid);
    assert_eq!(ledger.create_vesting_account(&ctx, &mut balance, b"Acme".to_vec(), &pid), Ok(()));
    assert_eq!(ledger.entries.len(), 2);
    let balance_after = balance;
    let r = ledger.create_vesting_account(&ctx, &mut balance, b"Acme".to_vec(), &pid);
    assert_eq!(r, Err(VestingError::DuplicateAccount));
    assert_eq!(ledger.entries.len(), 2);
    assert_eq!(balance, balance_after);
}

#[test]
fn derivation_is_deterministic() {
    let pid = program_id();
    let name = b"Acme".to_vec();
    let first = derive_address(&record_seed_list(&name), &pid).unwrap();
    let second = derive_address(&record_seed_list(&name), &pid).unwrap();
    assert_eq!(first, second);
    let first_t = derive_address(&treasury_seed_list(&name), &pid).unwrap();
    let second_t = derive_address(&treasury_seed_list(&name), &pid).unwrap();
    assert_eq!(first_t, second_t);
}

#[test]
fn changed_name_byte_changes_both_addresses() {
    let pid = program_id();
    let (rec, tre) = derived_pair(b"Acme", &pid);
    for other in [&b"Bcme"[..], &b"Acmf"[..], &b"AcMe"[..]] {
        let (rec2, tre2) = derived_pair(other, &pid);
        assert_ne!(rec.0, rec2.0);
        assert_ne!(tre.0, tre2.0);
    }
}

#[test]
fn created_record_holds_exact_inputs() {
    let pid = program_id();
    let mut ledger = Ledger::new(1);
    let mut balance: u64 = 10_000;
    let ctx = ctx_for(b"Acme", &pid);
    let (rec, tre) = derived_pair(b"Acme", &pid);
    assert_eq!(ledger.create_vesting_account(&ctx, &mut balance, b"Acme".to_vec(), &pid), Ok(()));
    match ledger.lookup(&rec.0) {
        Some(AccountData::Record(record)) => {
            assert_eq!(record.owner, vec![1u8; 32]);
            assert_eq!(record.mint, vec![2u8; 32]);
            assert_eq!(record.treasury_token_account, tre.0);
            assert_eq!(record.company_name, b"Acme".to_vec());
            assert_eq!(record.bump, rec.1);
            assert_eq!(record.treasury_bump, tre.1);
        },
        _ => panic!("no vesting record at the derived record address"),
    }
}

#[test]
fn treasury_is_self_custodied_and_empty() {
    let pid = program_id();
    let mut ledger = Ledger::new(1);
    let mut balance: u64 = 10_000;
    let ctx = ctx_for(b"Acme", &pid);
    let (_, tre) = derived_pair(b"Acme", &pid);
    assert_eq!(ledger.create_vesting_account(&ctx, &mut balance, b"Acme".to_vec(), &pid), Ok(()));
    match ledger.lookup(&tre.0) {
        Some(AccountData::Treasury(treasury)) => {
            assert_eq!(treasury.authority, tre.0);
            assert_eq!(treasury.mint, vec![2u8; 32]);
            assert_eq!(treasury.amount, 0);
        },
        _ => panic!("no treasury account at the derived treasury address"),
    }
}

#[test]
fn long_name_rejected_creates_nothing() {
    let pid = program_id();
    let mut ledger = Ledger::new(1);
    let mut balance: u64 = 10_000;
    let name = vec![b'x'; 51];
    let ctx = CreateVestingAccount {
        signer: vec![1u8; 32],
        vesting_account: vec![3u8; 32],
        mint: vec![2u8; 32],
        treasury_token_account: vec![4u8; 32],
    };
    let r = ledger.create_vesting_account(&ctx, &mut balance, name, &pid);
    assert_eq!(r, Err(VestingError::SeedConstraintViolation));
    assert_eq!(ledger.entries.len(), 0);
    assert_eq!(balance, 10_000);
}

#[test]
fn name_over_host_seed_limit_rejected() {
    let pid = program_id();
    let mut ledger = Ledger::new(1);
    let mut balance: u64 = 10_000;
    let name = vec![b'x'; 33];
    assert!(derive_address(&record_seed_list(&name), &pid).is_err());
    let ctx = CreateVestingAccount {
        signer: vec![1u8; 32],
        vesting_account: vec![3u8; 32],
        mint: vec![2u8; 32],
        treasury_token_account: vec![4u8; 32],
    };
    let r = ledger.create_vesting_account(&ctx, &mut balance, name, &pid);
    assert_eq!(r, Err(VestingError::SeedConstraintViolation));
    assert_eq!(ledger.entries.len(), 0);
    assert_eq!(balance, 10_000);
}

#[test]
fn name_at_host_seed_limit_succeeds() {
    let pid = program_id();
    let mut ledger = Ledger::new(1);
    let mut balance: u64 = 10_000;
    let name = vec![b'x'; 32];
    let ctx = ctx_for(&name, &pid);
    assert_eq!(ledger.create_vesting_account(&ctx, &mut balance, name, &pid), Ok(()));
    assert_eq!(ledger.entries.len(), 2);
}

#[test]
fn empty_name_succeeds() {
    let pid = program_id();
    let mut ledger = Ledger::new(1);
    let mut balance: u64 = 10_000;
    let ctx = ctx_for(b"", &pid);
    assert_eq!(ledger.create_vesting_account(&ctx, &mut balance, Vec::new(), &pid), Ok(()));
    assert_eq!(ledger.entries.len(), 2);
}

#[test]
fn insufficient_funding_rejected() {
    let pid = program_id();
    let mut ledger = Ledger::new(1);
    let mut balance: u64 = 10;
    let ctx = ctx_for(b"Acme", &pid);
    let r = ledger.create_vesting_account(&ctx, &mut balance, b"Acme".to_vec(), &pid);
    assert_eq!(r, Err(VestingError::InsufficientFunding));
    assert_eq!(ledger.entries.len(), 0);
    assert_eq!(balance, 10);
}

#[test]
fn huge_rate_is_insufficient_for_any_balance() {
    let pid = program_id();
    let mut ledger = Ledger::new(u64::MAX);
    let mut balance: u64 = u64::MAX;
    let ctx = ctx_for(b"Acme", &pid);
    let r = ledger.create_vesting_account(&ctx, &mut balance, b"Acme".to_vec(), &pid);
    assert_eq!(r, Err(VestingError::InsufficientFunding));
    assert_eq!(ledger.entries.len(), 0);
    assert_eq!(balance, u64::MAX);
}

#[test]
fn mismatched_supplied_addresses_rejected() {
    let pid = program_id();
    let mut ledger = Ledger::new(1);
    let mut balance: u64 = 10_000;
    let (rec, tre) = derived_pair(b"Acme", &pid);
    let ctx = CreateVestingAccount {
        signer: vec![1u8; 32],
        vesting_account: tre.0,
        mint: vec![2u8; 32],
        treasury_token_account: rec.0,
    };
    let r = ledger.create_vesting_account(&ctx, &mut balance, b"Acme".to_vec(), &pid);
    assert_eq!(r, Err(VestingError::AuthorityMismatch));
    assert_eq!(ledger.entries.len(), 0);
    assert_eq!(balance, 10_000);
}

#[test]
fn exact_cost_charged_on_success() {
    assert_eq!(VESTING_ACCOUNT_SPACE, 160);
    assert_eq!(TREASURY_ACCOUNT_SPACE, 165);
    let pid = program_id();
    let mut ledger = Ledger::new(2);
    let mut balance: u64 = 1_000;
    let ctx = ctx_for(b"Acme", &pid);
    assert_eq!(ledger.create_vesting_account(&ctx, &mut balance, b"Acme".to_vec(), &pid), Ok(()));
    assert_eq!(balance, 1_000 - 2 * (160 + 165));
}

#[test]
fn derived_addresses_are_not_echoes_of_the_inputs() {
    let pid = program_id();
    let (rec, tre) = derived_pair(b"Acme", &pid);
    assert_eq!(rec.0.len(), 32);
    assert_eq!(tre.0.len(), 32);
    assert_ne!(rec.0, tre.0);
    assert_ne!(rec.0, pid.to_vec());
    assert_ne!(tre.0, pid.to_vec());
    let mut padded_name = b"Acme".to_vec();
    padded_name.resize(32, 0);
    assert_ne!(rec.0, padded_name);
}

#[test]
fn two_companies_coexist() {
    let pid = program_id();
    let mut ledger = Ledger::new(1);
    let mut balance: u64 = 10_000;
    let ctx_a = ctx_for(b"Acme", &pid);
    let ctx_b = ctx_for(b"Globex", &pid);
    assert_eq!(ledger.create_vesting_account(&ctx_a, &mut balance, b"Acme".to_vec(), &pid), Ok(()));
    assert_eq!(
        ledger.create_vesting_account(&ctx_b, &mut balance, b"Globex".to_vec(), &pid),
        Ok(())
    );
    assert_eq!(ledger.entries.len(), 4);
    let (rec_a, _) = derived_pair(b"Acme", &pid);
    let (rec_b, _) = derived_pair(b"Globex", &pid);
    assert!(ledger.lookup(&rec_a.0).is_some());
    assert!(ledger.lookup(&rec_b.0).is_some());
}
