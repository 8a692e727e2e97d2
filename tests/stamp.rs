use stamp_program::account::{is_authorized, system_program_address, Account, Rent, TokenAccount};
use stamp_program::address::{cmp_pubkeys, find_stanp_program_address, record_seeds, Address};
use stamp_program::error::{CardError, ProgramError};
use stamp_program::instruction::{StampArgs, StampInstruction};
use stamp_program::processor::{creation_plan, init, Processor, StampAccounts};
use stamp_program::state::{Stamp, FLAG_ACCOUNT_SIZE};
use stamp_program::utils::{
    assert_account_key, assert_initialized, assert_owned_by, assert_rent_exempt, assert_signer,
    assert_token_owned_by, assert_uninitialized, calculate_amount_with_fee, calculate_fee,
    create_new_account_raw, empty_account_balance, native_transfer, spl_token_transfer, transfer,
};

fn key(n: u8) -> Address {
    Address::new_from_array([n; 32])
}

fn wallet(k: Address, lamports: u64, is_signer: bool) -> Account {
    Account {
        key: k,
        lamports,
        data: Vec::new(),
        owner: system_program_address(),
        is_signer,
        token: None,
    }
}

fn token_account(k: Address, mint: Address, owner: Address, amount: u64) -> Account {
    Account {
        key: k,
        lamports: 2_039_280,
        data: Vec::new(),
        owner: key(6),
        is_signer: false,
        token: Some(TokenAccount { mint, owner, amount }),
    }
}

fn rent() -> Rent {
    Rent { lamports_per_byte_year: 3480, exemption_threshold_years: 2 }
}

const RECORD_RENT: u64 = 897_840;
const PAYER_FUNDS: u64 = 1_000_000_000;

fn program() -> Address {
    key(7)
}

fn reference() -> Address {
    key(9)
}

fn setup(bump_offset: u8) -> (StampAccounts, u8) {
    let (addr, bump) = find_stanp_program_address(&program(), &reference()).unwrap();
    let accounts = StampAccounts {
        authority: wallet(key(1), 0, true),
        payer: wallet(key(2), PAYER_FUNDS, true),
        stamp: wallet(addr, 0, false),
        reference: wallet(reference(), 0, false),
    };
    (accounts, bump - bump_offset)
}

#[test]
fn scenario_init_creates_record() {
    let (mut accounts, bump) = setup(0);
    let r = Processor::process(&program(), &mut accounts, &rent(), &[0, bump]);
    assert_eq!(r, Ok(()));
    assert_eq!(accounts.stamp.owner, program());
    assert_eq!(accounts.stamp.data, vec![1u8]);
    assert_eq!(accounts.stamp.data.len(), FLAG_ACCOUNT_SIZE);
    assert_eq!(accounts.stamp.lamports, RECORD_RENT);
    assert_eq!(accounts.payer.lamports, PAYER_FUNDS - RECORD_RENT);
    assert_eq!(assert_initialized(&accounts.stamp), Ok(Stamp { is_initialized: true }));
    assert_eq!(assert_owned_by(&accounts.stamp, &program()), Ok(()));
    assert_eq!(assert_rent_exempt(&rent(), &accounts.stamp), Ok(()));
}

#[test]
fn scenario_second_init_fails() {
    let (mut accounts, bump) = setup(0);
    assert_eq!(Processor::process(&program(), &mut accounts, &rent(), &[0, bump]), Ok(()));
    let after_first = accounts.clone();
    let r = Processor::process(&program(), &mut accounts, &rent(), &[0, bump]);
    assert_eq!(r, Err(ProgramError::AccountAlreadyInitialized));
    assert_eq!(accounts, after_first);
}

#[test]
fn init_is_independent_of_other_records() {
    let (mut first, bump) = setup(0);
    let (other_addr, other_bump) = find_stanp_program_address(&program(), &key(10)).unwrap();
    let mut other = StampAccounts {
        authority: wallet(key(1), 0, true),
        payer: wallet(key(2), PAYER_FUNDS, true),
        stamp: wallet(other_addr, 0, false),
        reference: wallet(key(10), 0, false),
    };
    assert_eq!(Processor::process(&program(), &mut other, &rent(), &[0, other_bump]), Ok(()));
    assert_eq!(Processor::process(&program(), &mut first, &rent(), &[0, bump]), Ok(()));
    assert_eq!(
        Processor::process(&program(), &mut first, &rent(), &[0, bump]),
        Err(ProgramError::AccountAlreadyInitialized)
    );
    assert_ne!(other_addr, first.stamp.key);
}

#[test]
fn scenario_wrong_bump_fails_authorization() {
    let (mut accounts, bump) = setup(1);
    let before = accounts.clone();
    let r = Processor::process(&program(), &mut accounts, &rent(), &[0, bump]);
    assert_eq!(r, Err(ProgramError::MissingRequiredSignature));
    assert_eq!(accounts.payer.lamports, PAYER_FUNDS);
    assert_eq!(accounts, before);
    assert!(accounts.stamp.data.is_empty());
}

#[test]
fn init_requires_authority_signature() {
    let (mut accounts, bump) = setup(0);
    accounts.authority.is_signer = false;
    let r = Processor::process(&program(), &mut accounts, &rent(), &[0, bump]);
    assert_eq!(r, Err(ProgramError::MissingRequiredSignature));
    assert_eq!(accounts.payer.lamports, PAYER_FUNDS);
}

#[test]
fn init_rejects_funded_record_account() {
    let (mut accounts, bump) = setup(0);
    accounts.stamp.lamports = 1;
    let r = init(
        &program(),
        &accounts.authority,
        &mut accounts.payer,
        &mut accounts.stamp,
        &accounts.reference,
        &rent(),
        StampArgs { bump },
    );
    assert_eq!(r, Err(ProgramError::AccountAlreadyInitialized));
}

#[test]
fn init_with_poor_payer_fails() {
    let (mut accounts, bump) = setup(0);
    accounts.payer.lamports = RECORD_RENT - 1;
    let r = Processor::process(&program(), &mut accounts, &rent(), &[0, bump]);
    assert_eq!(r, Err(ProgramError::InsufficientFunds));
    assert_eq!(accounts.payer.lamports, RECORD_RENT - 1);
}

#[test]
fn process_rejects_bad_payloads() {
    let (mut accounts, bump) = setup(0);
    for data in [vec![], vec![0u8], vec![1u8, bump], vec![0u8, bump, 0]] {
        let r = Processor::process(&program(), &mut accounts, &rent(), &data);
        assert_eq!(r, Err(ProgramError::InvalidInstructionData));
    }
    assert_eq!(accounts.payer.lamports, PAYER_FUNDS);
}

#[test]
fn instruction_round_trip() {
    let ix = StampInstruction::InitStamp(StampArgs { bump: 254 });
    let bytes = ix.to_bytes();
    assert_eq!(bytes, vec![0u8, 254]);
    assert_eq!(StampInstruction::try_from_slice(&bytes), Ok(ix));
}

#[test]
fn derivation_is_deterministic() {
    let a = find_stanp_program_address(&program(), &reference());
    let b = find_stanp_program_address(&program(), &reference());
    assert_eq!(a, b);
    let (addr, bump) = a.unwrap();
    assert!(bump >= 1);
    assert_ne!(addr, reference());
    assert_ne!(addr, program());
    let (other, _) = find_stanp_program_address(&key(8), &reference()).unwrap();
    assert_ne!(addr, other);
}

#[test]
fn derived_address_authorizes_with_its_seeds() {
    let (addr, bump) = find_stanp_program_address(&program(), &reference()).unwrap();
    let record = wallet(addr, 0, false);
    let good = vec![record_seeds(&reference(), Some(bump))];
    assert!(is_authorized(&record, &good, &program()));
    assert!(!is_authorized(&record, &good, &key(8)));
    let bad = vec![record_seeds(&reference(), Some(bump - 1))];
    assert!(!is_authorized(&record, &bad, &program()));
    assert!(!is_authorized(&record, &Vec::new(), &program()));
}

#[test]
fn scenario_fee_overflow() {
    assert_eq!(calculate_fee(u64::MAX, 10000), Err(ProgramError::Custom(CardError::MathOverflow)));
}

#[test]
fn fee_values() {
    assert_eq!(calculate_fee(1000, 250), Ok(25));
    assert_eq!(calculate_fee(9999, 1), Ok(0));
    assert_eq!(calculate_fee(0, 10000), Ok(0));
    assert_eq!(calculate_fee(12345, 10000), Ok(12345));
    assert_eq!(calculate_fee(u64::MAX, 1), Ok(u64::MAX / 10000));
    assert_eq!(calculate_fee(u64::MAX, 2), Err(ProgramError::Custom(CardError::MathOverflow)));
}

#[test]
fn amount_with_fee_values() {
    assert_eq!(calculate_amount_with_fee(1000, 250), Ok(1025));
    assert_eq!(calculate_amount_with_fee(1000, 0), Ok(1000));
    for (amount, bp) in [(1000u64, 250u64), (77, 9999), (5_000_000, 30)] {
        assert_eq!(
            calculate_amount_with_fee(amount, bp),
            Ok(amount + calculate_fee(amount, bp).unwrap())
        );
    }
    assert_eq!(
        calculate_amount_with_fee(u64::MAX, 1),
        Err(ProgramError::Custom(CardError::MathOverflow))
    );
    assert_eq!(
        calculate_amount_with_fee(u64::MAX, 10000),
        Err(ProgramError::Custom(CardError::MathOverflow))
    );
}

#[test]
fn scenario_token_transfer_moves_amount() {
    let mint = key(30);
    let owner = wallet(key(31), 0, true);
    let mut src = token_account(key(32), mint, key(31), 500);
    let mut dst = token_account(key(33), mint, key(34), 20);
    let r = transfer(false, &program(), &mut src, &mut dst, &owner, 120, &Vec::new());
    assert_eq!(r, Ok(()));
    assert_eq!(src.token.unwrap().amount, 380);
    assert_eq!(dst.token.unwrap().amount, 140);
    assert_eq!(src.lamports, 2_039_280);
    assert_eq!(dst.lamports, 2_039_280);
    assert_eq!(src.token.unwrap().owner, key(31));
    assert_eq!(dst.token.unwrap().owner, key(34));
}

#[test]
fn scenario_native_transfer_moves_amount() {
    let mut src = wallet(key(40), 1000, true);
    let mut dst = wallet(key(41), 5, false);
    let owner = wallet(key(42), 0, false);
    let r = transfer(true, &program(), &mut src, &mut dst, &owner, 300, &Vec::new());
    assert_eq!(r, Ok(()));
    assert_eq!(src.lamports, 700);
    assert_eq!(dst.lamports, 305);
    assert_eq!(src.token, None);
}

#[test]
fn native_transfer_from_derived_address() {
    let (addr, bump) = find_stanp_program_address(&program(), &reference()).unwrap();
    let mut src = wallet(addr, 1000, false);
    let mut dst = wallet(key(41), 0, false);
    let seeds = vec![record_seeds(&reference(), Some(bump))];
    assert_eq!(native_transfer(&program(), &mut src, &mut dst, 1000, &seeds), Ok(()));
    assert_eq!(src.lamports, 0);
    assert_eq!(dst.lamports, 1000);
}

#[test]
fn native_transfer_failures() {
    let mut src = wallet(key(40), 100, false);
    let mut dst = wallet(key(41), 0, false);
    assert_eq!(
        native_transfer(&program(), &mut src, &mut dst, 10, &Vec::new()),
        Err(ProgramError::MissingRequiredSignature)
    );
    src.is_signer = true;
    assert_eq!(
        native_transfer(&program(), &mut src, &mut dst, 101, &Vec::new()),
        Err(ProgramError::InsufficientFunds)
    );
    dst.lamports = u64::MAX;
    assert_eq!(
        native_transfer(&program(), &mut src, &mut dst, 1, &Vec::new()),
        Err(ProgramError::ArithmeticOverflow)
    );
    assert_eq!(src.lamports, 100);
    assert_eq!(dst.lamports, u64::MAX);
}

#[test]
fn token_transfer_failures() {
    let mint = key(30);
    let owner = wallet(key(31), 0, true);
    let mut src = token_account(key(32), mint, key(31), 50);
    let mut dst = token_account(key(33), mint, key(34), 0);
    let mut plain = wallet(key(35), 0, false);
    assert_eq!(
        spl_token_transfer(&program(), &mut src, &mut plain, &owner, 1, &Vec::new()),
        Err(ProgramError::InvalidAccountData)
    );
    assert_eq!(
        spl_token_transfer(&program(), &mut src, &mut dst, &owner, 51, &Vec::new()),
        Err(ProgramError::InsufficientFunds)
    );
    let mut other_mint = token_account(key(36), key(37), key(34), 0);
    assert_eq!(
        spl_token_transfer(&program(), &mut src, &mut other_mint, &owner, 1, &Vec::new()),
        Err(ProgramError::TokenMintMismatch)
    );
    let stranger = wallet(key(38), 0, true);
    assert_eq!(
        spl_token_transfer(&program(), &mut src, &mut dst, &stranger, 1, &Vec::new()),
        Err(ProgramError::TokenOwnerMismatch)
    );
    let unsigned_owner = wallet(key(31), 0, false);
    assert_eq!(
        spl_token_transfer(&program(), &mut src, &mut dst, &unsigned_owner, 1, &Vec::new()),
        Err(ProgramError::MissingRequiredSignature)
    );
    let mut full = token_account(key(39), mint, key(34), u64::MAX);
    assert_eq!(
        spl_token_transfer(&program(), &mut src, &mut full, &owner, 1, &Vec::new()),
        Err(ProgramError::ArithmeticOverflow)
    );
    assert_eq!(src.token.unwrap().amount, 50);
}

#[test]
fn record_pack_unpack_round_trip() {
    for flag in [false, true] {
        let record = Stamp { is_initialized: flag };
        let mut buf = vec![7u8; FLAG_ACCOUNT_SIZE];
        assert_eq!(Stamp::pack(record, &mut buf), Ok(()));
        assert_eq!(Stamp::unpack_unchecked(&buf), Ok(record));
    }
}

#[test]
fn record_unpack_rejects_other_lengths() {
    for len in [0usize, 2, 3, 165] {
        let buf = vec![0u8; len];
        assert_eq!(Stamp::unpack_from_slice(&buf), Err(ProgramError::InvalidAccountData));
        assert_eq!(Stamp::unpack(&buf), Err(ProgramError::InvalidAccountData));
    }
    let mut short: Vec<u8> = Vec::new();
    assert_eq!(
        Stamp::pack(Stamp { is_initialized: true }, &mut short),
        Err(ProgramError::InvalidAccountData)
    );
    assert!(short.is_empty());
}

#[test]
fn record_unpack_flag_byte() {
    assert_eq!(Stamp::unpack(&[1u8]), Ok(Stamp { is_initialized: true }));
    assert_eq!(Stamp::unpack(&[0u8]), Err(ProgramError::UninitializedAccount));
    assert_eq!(Stamp::unpack_from_slice(&[2u8]), Err(ProgramError::InvalidRecordEncoding));
    assert!(!Stamp::default().is_initialized());
    let mut buf = vec![0u8, 9];
    Stamp { is_initialized: true }.pack_into_slice(&mut buf);
    assert_eq!(buf, vec![1u8, 9]);
}

#[test]
fn assertion_primitives() {
    assert_eq!(assert_uninitialized(&Stamp { is_initialized: false }), Ok(()));
    assert_eq!(
        assert_uninitialized(&Stamp { is_initialized: true }),
        Err(ProgramError::AccountAlreadyInitialized)
    );
    let signer = wallet(key(1), 0, true);
    let other = wallet(key(2), 0, false);
    assert_eq!(assert_signer(&signer), Ok(()));
    assert_eq!(assert_signer(&other), Err(ProgramError::MissingRequiredSignature));
    assert_eq!(assert_owned_by(&other, &system_program_address()), Ok(()));
    assert_eq!(assert_owned_by(&other, &key(3)), Err(ProgramError::Custom(CardError::InvalidOwner)));
    let token = TokenAccount { mint: key(4), owner: key(5), amount: 0 };
    assert_eq!(assert_token_owned_by(&token, &key(5)), Ok(()));
    assert_eq!(assert_token_owned_by(&token, &key(4)), Err(ProgramError::Custom(CardError::InvalidOwner)));
    assert_eq!(assert_account_key(&other, &key(2), None), Ok(()));
    assert_eq!(assert_account_key(&other, &key(3), None), Err(ProgramError::InvalidArgument));
    assert_eq!(
        assert_account_key(&other, &key(3), Some(CardError::InvalidEscrowKey)),
        Err(ProgramError::Custom(CardError::InvalidEscrowKey))
    );
    assert!(cmp_pubkeys(&key(3), &key(3)));
    let mut almost = [3u8; 32];
    almost[31] = 4;
    assert!(!cmp_pubkeys(&key(3), &Address::new_from_array(almost)));
}

#[test]
fn rent_exemption() {
    assert_eq!(rent().minimum_balance(0), Some(890_880));
    assert_eq!(rent().minimum_balance(FLAG_ACCOUNT_SIZE), Some(RECORD_RENT));
    assert!(rent().is_exempt(RECORD_RENT, 1));
    assert!(!rent().is_exempt(RECORD_RENT - 1, 1));
    assert_eq!(rent().minimum_balance(usize::MAX), None);
    let free = Rent { lamports_per_byte_year: 0, exemption_threshold_years: 2 };
    assert_eq!(free.minimum_balance(usize::MAX), Some(0));
    let mut poor = wallet(key(1), RECORD_RENT - 1, false);
    poor.data = vec![0u8];
    assert_eq!(assert_rent_exempt(&rent(), &poor), Err(ProgramError::Custom(CardError::NotRentExempt)));
}

#[test]
fn assert_initialized_reports_uninitialized_record() {
    let mut record = wallet(key(1), 0, false);
    record.data = vec![0u8];
    assert_eq!(
        assert_initialized(&record),
        Err(ProgramError::Custom(CardError::AccountNotInitialized))
    );
    record.data = vec![];
    assert_eq!(assert_initialized(&record), Err(ProgramError::InvalidAccountData));
}

#[test]
fn empty_balance_moves_everything() {
    let mut src = wallet(key(1), 400, false);
    let mut dst = wallet(key(2), 100, false);
    assert_eq!(empty_account_balance(&mut src, &mut dst), Ok(()));
    assert_eq!((src.lamports, dst.lamports), (0, 500));
    let mut big = wallet(key(3), u64::MAX, false);
    let mut one = wallet(key(4), 1, false);
    assert_eq!(empty_account_balance(&mut one, &mut big), Err(ProgramError::ArithmeticOverflow));
    assert_eq!((one.lamports, big.lamports), (1, u64::MAX));
}

#[test]
fn create_refuses_account_in_use() {
    let (addr, bump) = find_stanp_program_address(&program(), &reference()).unwrap();
    let seeds = record_seeds(&reference(), Some(bump));
    let mut payer = wallet(key(2), PAYER_FUNDS, true);
    let mut used = wallet(addr, 0, false);
    used.data = vec![5u8];
    assert_eq!(
        create_new_account_raw(&program(), &mut used, &rent(), &mut payer, 1, &seeds),
        Err(ProgramError::AccountAlreadyInUse)
    );
    let mut fresh = wallet(addr, 0, false);
    let mut unsigned_payer = wallet(key(2), PAYER_FUNDS, false);
    assert_eq!(
        create_new_account_raw(&program(), &mut fresh, &rent(), &mut unsigned_payer, 1, &seeds),
        Err(ProgramError::MissingRequiredSignature)
    );
    assert_eq!(
        create_new_account_raw(&program(), &mut fresh, &rent(), &mut payer, 4, &seeds),
        Ok(())
    );
    assert_eq!(fresh.data, vec![0u8; 4]);
    assert_eq!(fresh.owner, program());
    assert_eq!(payer.lamports, PAYER_FUNDS - rent().minimum_balance(4).unwrap());
}

#[test]
fn error_codes_are_stable() {
    assert_eq!(CardError::InvalidOwner.code(), 0);
    assert_eq!(CardError::MathOverflow.code(), 12);
    assert_eq!(CardError::InvalidWithdrawTokenOwner.code(), 22);
    assert_eq!(ProgramError::from(CardError::FeeOverflow), ProgramError::Custom(CardError::FeeOverflow));
}

#[test]
fn creation_plan_matches_successful_init() {
    let (mut accounts, bump) = setup(0);
    let plan = creation_plan(&program(), &accounts.reference, &rent(), StampArgs { bump }).unwrap();
    assert_eq!(plan.funding, RECORD_RENT);
    assert_eq!(plan.size, FLAG_ACCOUNT_SIZE);
    assert_eq!(plan.owner, program());
    assert_eq!(plan.seeds, record_seeds(&reference(), Some(bump)));
    assert_eq!(plan.seeds[0], b"stamp".to_vec());
    assert_eq!(Processor::process(&program(), &mut accounts, &rent(), &[0, bump]), Ok(()));
    assert_eq!(accounts.stamp.lamports, plan.funding);
    let huge = Rent { lamports_per_byte_year: u64::MAX, exemption_threshold_years: 2 };
    assert!(creation_plan(&program(), &accounts.reference, &huge, StampArgs { bump }).is_none());
}
