use vstd::prelude::*;
use crate::account::{
    authorized, is_authorized, is_exempt_spec, minimum_balance_spec, seed_sets_view, system_program_address,
    system_program_id, Account, Rent, TokenAccount,
};
use crate::address::{cmp_pubkeys, create_program_address, seeds_view, Address};
use crate::error::{CardError, ProgramError};
use crate::state::{unpacked, Stamp};

verus! {

/// The largest amount of data one account may hold.
pub const MAX_PERMITTED_DATA_LENGTH: usize = 10485760;

/// Fails with `AccountAlreadyInitialized` if the record is initialized.
pub fn assert_uninitialized(account: &Stamp) -> (r: Result<(), ProgramError>)
    ensures
        r == if account.is_initialized {
            Err(ProgramError::AccountAlreadyInitialized)
        } else {
            Ok(())
        },
{
    if account.is_initialized() {
        Err(ProgramError::AccountAlreadyInitialized)
    } else {
        Ok(())
    }
}

/// Fails with `MissingRequiredSignature` unless the account signed.
pub fn assert_signer(account: &Account) -> (r: Result<(), ProgramError>)
    ensures
        r == if account.is_signer {
            Ok(())
        } else {
            Err(ProgramError::MissingRequiredSignature)
        },
{
    if account.is_signer {
        return Ok(());
    }
    Err(ProgramError::MissingRequiredSignature)
}

/// Fails with `InvalidOwner` unless `owner` owns the account.
pub fn assert_owned_by(account: &Account, owner: &Address) -> (r: Result<(), ProgramError>)
    ensures
        r == if account.owner.bytes@ != owner.bytes@ {
            Err(ProgramError::Custom(CardError::InvalidOwner))
        } else {
            Ok(())
        },
{
    if !cmp_pubkeys(&account.owner, owner) {
        Err(ProgramError::Custom(CardError::InvalidOwner))
    } else {
        Ok(())
    }
}

/// Fails with `InvalidOwner` unless `owner` owns the token account.
pub fn assert_token_owned_by(token: &TokenAccount, owner: &Address) -> (r: Result<(), ProgramError>)
    ensures
        r == if token.owner.bytes@ != owner.bytes@ {
            Err(ProgramError::Custom(CardError::InvalidOwner))
        } else {
            Ok(())
        },
{
    if !cmp_pubkeys(&token.owner, owner) {
        Err(ProgramError::Custom(CardError::InvalidOwner))
    } else {
        Ok(())
    }
}

/// Binds a role to the account actually supplied: fails with `error`, or with
/// `InvalidArgument` where none is given, unless the account has address `key`.
pub fn assert_account_key(account_info: &Account, key: &Address, error: Option<CardError>) -> (r: Result<(), ProgramError>)
    ensures
        r == if account_info.key.bytes@ != key.bytes@ {
            match error {
                Some(e) => Err(ProgramError::Custom(e)),
                None => Err(ProgramError::InvalidArgument),
            }
        } else {
            Ok(())
        },
{
    if !cmp_pubkeys(&account_info.key, key) {
        match error {
            Some(e) => Err(ProgramError::Custom(e)),
            None => Err(ProgramError::InvalidArgument),
        }
    } else {
        Ok(())
    }
}

/// Fails with `NotRentExempt` unless the account's balance covers the
/// rent-exemption minimum for its data.
pub fn assert_rent_exempt(rent: &Rent, account_info: &Account) -> (r: Result<(), ProgramError>)
    ensures
        r == if !is_exempt_spec(*rent, account_info.lamports, account_info.data@.len()) {
            Err(ProgramError::Custom(CardError::NotRentExempt))
        } else {
            Ok(())
        },
{
    if !rent.is_exempt(account_info.lamports, account_info.data.len()) {
        Err(ProgramError::Custom(CardError::NotRentExempt))
    } else {
        Ok(())
    }
}

/// The record held by an account, which must be initialized.
pub open spec fn initialized_record(data: Seq<u8>) -> Result<Stamp, ProgramError> {
    match unpacked(data) {
        Ok(s) => if s.is_initialized {
            Ok(s)
        } else {
            Err(ProgramError::Custom(CardError::AccountNotInitialized))
        },
        Err(e) => Err(e),
    }
}

/// Decodes the account's record and fails with `AccountNotInitialized` unless
/// it is initialized.
pub fn assert_initialized(account_info: &Account) -> (r: Result<Stamp, ProgramError>)
    ensures
        r == initialized_record(account_info.data@),
{
    let account = Stamp::unpack_unchecked(account_info.data.as_slice())?;
    if !account.is_initialized() {
        Err(ProgramError::Custom(CardError::AccountNotInitialized))
    } else {
        Ok(account)
    }
}

/// Moves the whole balance of `source` to `receiver`.
pub fn empty_account_balance(source: &mut Account, receiver: &mut Account) -> (r: Result<(), ProgramError>)
    ensures
        r is Ok <==> old(receiver).lamports + old(source).lamports <= u64::MAX,
        r is Ok ==> final(receiver).lamports == old(receiver).lamports + old(source).lamports
            && final(source).lamports == 0,
        r is Err ==> r == Err::<(), ProgramError>(ProgramError::ArithmeticOverflow),
        final(source).key == old(source).key && final(source).data == old(source).data
            && final(source).owner == old(source).owner && final(source).is_signer == old(source).is_signer
            && final(source).token == old(source).token,
        final(receiver).key == old(receiver).key && final(receiver).data == old(receiver).data
            && final(receiver).owner == old(receiver).owner && final(receiver).is_signer == old(receiver).is_signer
            && final(receiver).token == old(receiver).token,
        r is Err ==> final(source).lamports == old(source).lamports
            && final(receiver).lamports == old(receiver).lamports,
{
    match receiver.lamports.checked_add(source.lamports) {
        Some(total) => {
            receiver.lamports = total;
            source.lamports = 0;
            Ok(())
        },
        None => Err(ProgramError::ArithmeticOverflow),
    }
}

/// The fee on `amount` at `fee_basis_points` hundredths of a percent, rounded
/// down; `None` where the product overflows.
pub open spec fn fee_spec(amount: u64, fee_basis_points: u64) -> Option<int> {
    if amount * fee_basis_points > u64::MAX {
        None
    } else {
        Some((amount * fee_basis_points) / 10000)
    }
}

/// `amount * fee_basis_points / 10000`, rounded down; fails with
/// `MathOverflow` where the product does not fit.
pub fn calculate_fee(amount: u64, fee_basis_points: u64) -> (r: Result<u64, ProgramError>)
    ensures
        match fee_spec(amount, fee_basis_points) {
            Some(f) => r == Ok::<u64, ProgramError>(f as u64) && f <= u64::MAX,
            None => r == Err::<u64, ProgramError>(ProgramError::Custom(CardError::MathOverflow)),
        },
{
    match amount.checked_mul(fee_basis_points) {
        Some(p) => Ok(p / 10000),
        None => Err(ProgramError::Custom(CardError::MathOverflow)),
    }
}

/// `amount` plus its fee, where both fit.
pub open spec fn amount_with_fee_spec(amount: u64, fee_basis_points: u64) -> Option<int> {
    match fee_spec(amount, fee_basis_points) {
        Some(f) => if amount + f <= u64::MAX {
            Some(amount + f)
        } else {
            None
        },
        None => None,
    }
}

/// `amount` plus its fee; fails with `MathOverflow` where the fee or the sum
/// does not fit.
pub fn calculate_amount_with_fee(amount: u64, fee_basis_points: u64) -> (r: Result<u64, ProgramError>)
    ensures
        match amount_with_fee_spec(amount, fee_basis_points) {
            Some(t) => r == Ok::<u64, ProgramError>(t as u64) && t <= u64::MAX,
            None => r == Err::<u64, ProgramError>(ProgramError::Custom(CardError::MathOverflow)),
        },
{
    let fee = calculate_fee(amount, fee_basis_points)?;
    match amount.checked_add(fee) {
        Some(total) => Ok(total),
        None => Err(ProgramError::Custom(CardError::MathOverflow)),
    }
}

/// On every input where nothing overflows, the amount with fee is the amount
/// plus the fee, and the fee is the product divided by 10000, rounded down.
pub proof fn lemma_amount_with_fee_is_amount_plus_fee(amount: u64, fee_basis_points: u64)
    requires
        amount * fee_basis_points <= u64::MAX,
        amount + (amount * fee_basis_points) / 10000 <= u64::MAX,
    ensures
        fee_spec(amount, fee_basis_points) == Some((amount * fee_basis_points) / 10000),
        amount_with_fee_spec(amount, fee_basis_points) == Some(
            amount + (amount * fee_basis_points) / 10000,
        ),
{
}

/// Decides whether `account` authorized the operation, by its own signature or
/// by the one derivation proof `seeds` presented by `program_id`.
fn signed_by_seed_set(account: &Account, seeds: &Vec<Vec<u8>>, program_id: &Address) -> (r: bool)
    ensures
        r == authorized(*account, seq![seeds_view(seeds@)], program_id.bytes@),
{
    if account.is_signer {
        return true;
    }
    let derived = create_program_address(seeds, program_id);
    let ghost single = seq![seeds_view(seeds@)];
    match derived {
        Some(a) => {
            if cmp_pubkeys(&a, &account.key) {
                assert(single[0] == seeds_view(seeds@));
                true
            } else {
                false
            }
        },
        None => false,
    }
}

/// The outcome of moving `amount` of the base currency from `source` to
/// `destination`: the source must have authorized it and hold the amount.
pub open spec fn native_transfer_outcome(
    source: Account,
    destination: Account,
    amount: u64,
    seed_sets: Seq<Seq<Seq<u8>>>,
    program_id: Seq<u8>,
) -> Result<(), ProgramError> {
    if !authorized(source, seed_sets, program_id) {
        Err(ProgramError::MissingRequiredSignature)
    } else if source.lamports < amount {
        Err(ProgramError::InsufficientFunds)
    } else if destination.lamports + amount > u64::MAX {
        Err(ProgramError::ArithmeticOverflow)
    } else {
        Ok(())
    }
}

/// `account` with its balance replaced.
pub open spec fn with_lamports(account: Account, lamports: int) -> Account {
    Account { lamports: lamports as u64, ..account }
}

/// Moves `amount` of the base currency from `source` to `destination`,
/// authorized by the source's signature or by one of the derivation proofs
/// `signers_seeds` of `program_id`. Nothing changes on failure.
pub fn native_transfer(
    program_id: &Address,
    source: &mut Account,
    destination: &mut Account,
    amount: u64,
    signers_seeds: &Vec<Vec<Vec<u8>>>,
) -> (r: Result<(), ProgramError>)
    ensures
        r == native_transfer_outcome(*old(source), *old(destination), amount,
            seed_sets_view(signers_seeds@), program_id.bytes@),
        r is Ok ==> *final(source) == with_lamports(*old(source), old(source).lamports - amount)
            && *final(destination) == with_lamports(*old(destination), old(destination).lamports + amount),
        r is Err ==> *final(source) == *old(source) && *final(destination) == *old(destination),
{
    if !is_authorized(source, signers_seeds, program_id) {
        return Err(ProgramError::MissingRequiredSignature);
    }
    if source.lamports < amount {
        return Err(ProgramError::InsufficientFunds);
    }
    match destination.lamports.checked_add(amount) {
        Some(total) => {
            destination.lamports = total;
            source.lamports = source.lamports - amount;
            Ok(())
        },
        None => Err(ProgramError::ArithmeticOverflow),
    }
}

/// The outcome of moving `amount` token units from `source` to `destination`
/// on the authority of `authority`, the owner of the source token account.
pub open spec fn token_transfer_outcome(
    source: Account,
    destination: Account,
    authority: Account,
    amount: u64,
    seed_sets: Seq<Seq<Seq<u8>>>,
    program_id: Seq<u8>,
) -> Result<(), ProgramError> {
    match (source.token, destination.token) {
        (Some(s), Some(d)) => if s.amount < amount {
            Err(ProgramError::InsufficientFunds)
        } else if s.mint.bytes@ != d.mint.bytes@ {
            Err(ProgramError::TokenMintMismatch)
        } else if authority.key.bytes@ != s.owner.bytes@ {
            Err(ProgramError::TokenOwnerMismatch)
        } else if !authorized(authority, seed_sets, program_id) {
            Err(ProgramError::MissingRequiredSignature)
        } else if d.amount + amount > u64::MAX {
            Err(ProgramError::ArithmeticOverflow)
        } else {
            Ok(())
        },
        _ => Err(ProgramError::InvalidAccountData),
    }
}

/// The token balance an account holds; zero where it is no token account.
pub open spec fn token_amount(account: Account) -> int {
    match account.token {
        Some(t) => t.amount as int,
        None => 0,
    }
}

/// `account` with its token balance replaced.
pub open spec fn with_token_amount(account: Account, amount: int) -> Account {
    match account.token {
        Some(t) => Account { token: Some(TokenAccount { amount: amount as u64, ..t }), ..account },
        None => account,
    }
}

/// Moves `amount` token units from the token account `source` to the token
/// account `destination` of the same mint, authorized by `authority`, the
/// source's owner. Base-currency balances are untouched; nothing changes on
/// failure.
pub fn spl_token_transfer(
    program_id: &Address,
    source: &mut Account,
    destination: &mut Account,
    authority: &Account,
    amount: u64,
    signers_seeds: &Vec<Vec<Vec<u8>>>,
) -> (r: Result<(), ProgramError>)
    ensures
        r == token_transfer_outcome(*old(source), *old(destination), *authority, amount,
            seed_sets_view(signers_seeds@), program_id.bytes@),
        r is Ok ==> *final(source) == with_token_amount(*old(source), token_amount(*old(source)) - amount)
            && *final(destination) == with_token_amount(*old(destination),
            token_amount(*old(destination)) + amount),
        r is Err ==> *final(source) == *old(source) && *final(destination) == *old(destination),
{
    let (s, d) = match (source.token, destination.token) {
        (Some(s), Some(d)) => (s, d),
        _ => return Err(ProgramError::InvalidAccountData),
    };
    if s.amount < amount {
        return Err(ProgramError::InsufficientFunds);
    }
    if !cmp_pubkeys(&s.mint, &d.mint) {
        return Err(ProgramError::TokenMintMismatch);
    }
    if !cmp_pubkeys(&authority.key, &s.owner) {
        return Err(ProgramError::TokenOwnerMismatch);
    }
    if !is_authorized(authority, signers_seeds, program_id) {
        return Err(ProgramError::MissingRequiredSignature);
    }
    match d.amount.checked_add(amount) {
        Some(total) => {
            destination.token = Some(TokenAccount { mint: d.mint, owner: d.owner, amount: total });
            source.token = Some(TokenAccount { mint: s.mint, owner: s.owner, amount: s.amount - amount });
            Ok(())
        },
        None => Err(ProgramError::ArithmeticOverflow),
    }
}

/// Moves `amount` from `source` to `destination`: base currency where
/// `is_native`, token units authorized by `owner_account_info` otherwise.
/// Exactly one of the two moves is attempted.
pub fn transfer(
    is_native: bool,
    program_id: &Address,
    source_account_info: &mut Account,
    destination_account_info: &mut Account,
    owner_account_info: &Account,
    amount: u64,
    signers_seeds: &Vec<Vec<Vec<u8>>>,
) -> (r: Result<(), ProgramError>)
    ensures
        is_native ==> r == native_transfer_outcome(*old(source_account_info),
            *old(destination_account_info), amount, seed_sets_view(signers_seeds@), program_id.bytes@),
        is_native && r is Ok ==> *final(source_account_info) == with_lamports(
            *old(source_account_info), old(source_account_info).lamports - amount)
            && *final(destination_account_info) == with_lamports(*old(destination_account_info),
            old(destination_account_info).lamports + amount),
        !is_native ==> r == token_transfer_outcome(*old(source_account_info),
            *old(destination_account_info), *owner_account_info, amount,
            seed_sets_view(signers_seeds@), program_id.bytes@),
        !is_native && r is Ok ==> *final(source_account_info) == with_token_amount(
            *old(source_account_info), token_amount(*old(source_account_info)) - amount)
            && *final(destination_account_info) == with_token_amount(*old(destination_account_info),
            token_amount(*old(destination_account_info)) + amount),
        r is Err ==> *final(source_account_info) == *old(source_account_info)
            && *final(destination_account_info) == *old(destination_account_info),
{
    if is_native {
        native_transfer(program_id, source_account_info, destination_account_info, amount, signers_seeds)
    } else {
        spl_token_transfer(
            program_id,
            source_account_info,
            destination_account_info,
            owner_account_info,
            amount,
            signers_seeds,
        )
    }
}

/// A well-formed base-currency transfer succeeds and moves exactly `amount`:
/// the source loses it, the destination gains it, and token balances stay.
pub proof fn lemma_native_transfer_moves_amount(
    source: Account,
    destination: Account,
    amount: u64,
    seed_sets: Seq<Seq<Seq<u8>>>,
    program_id: Seq<u8>,
)
    requires
        authorized(source, seed_sets, program_id),
        source.lamports >= amount,
        destination.lamports + amount <= u64::MAX,
    ensures
        native_transfer_outcome(source, destination, amount, seed_sets, program_id) is Ok,
        with_lamports(source, source.lamports - amount).lamports == source.lamports - amount,
        with_lamports(destination, destination.lamports + amount).lamports == destination.lamports + amount,
        with_lamports(source, source.lamports - amount).token == source.token,
        with_lamports(destination, destination.lamports + amount).token == destination.token,
{
}

/// A well-formed token transfer succeeds and moves exactly `amount` token
/// units from source to destination; base-currency balances stay.
pub proof fn lemma_token_transfer_moves_amount(
    source: Account,
    destination: Account,
    authority: Account,
    amount: u64,
    seed_sets: Seq<Seq<Seq<u8>>>,
    program_id: Seq<u8>,
)
    requires
        source.token is Some,
        destination.token is Some,
        source.token->0.mint.bytes@ == destination.token->0.mint.bytes@,
        authority.key.bytes@ == source.token->0.owner.bytes@,
        authorized(authority, seed_sets, program_id),
        token_amount(source) >= amount,
        token_amount(destination) + amount <= u64::MAX,
    ensures
        token_transfer_outcome(source, destination, authority, amount, seed_sets, program_id) is Ok,
        token_amount(with_token_amount(source, token_amount(source) - amount)) == token_amount(source) - amount,
        token_amount(with_token_amount(destination, token_amount(destination) + amount))
            == token_amount(destination) + amount,
        with_token_amount(source, token_amount(source) - amount).lamports == source.lamports,
        with_token_amount(destination, token_amount(destination) + amount).lamports == destination.lamports,
{
}

/// The outcome of creating `new_account` with `size` bytes for `program_id`:
/// the payer funds rent exemption, then the derivation proof `signer_seeds`
/// authorizes space allocation and the assignment of ownership.
pub open spec fn create_outcome(
    program_id: Seq<u8>,
    new_account: Account,
    rent: Rent,
    payer: Account,
    size: nat,
    signer_seeds: Seq<Seq<u8>>,
) -> Result<(), ProgramError> {
    let required = minimum_balance_spec(rent, size);
    if required > u64::MAX {
        Err(ProgramError::ArithmeticOverflow)
    } else if required > 0 && !payer.is_signer {
        Err(ProgramError::MissingRequiredSignature)
    } else if required > 0 && payer.lamports < required {
        Err(ProgramError::InsufficientFunds)
    } else if required > 0 && new_account.lamports + required > u64::MAX {
        Err(ProgramError::ArithmeticOverflow)
    } else if !authorized(new_account, seq![signer_seeds], program_id) {
        Err(ProgramError::MissingRequiredSignature)
    } else if new_account.data@.len() != 0 || new_account.owner.bytes@ != system_program_id() {
        Err(ProgramError::AccountAlreadyInUse)
    } else if size > MAX_PERMITTED_DATA_LENGTH {
        Err(ProgramError::InvalidArgument)
    } else {
        Ok(())
    }
}

/// Zero-filled storage of `size` bytes.
fn zeroed(size: usize) -> (r: Vec<u8>)
    ensures
        r@ == Seq::new(size as nat, |i: int| 0u8),
{
    let mut r: Vec<u8> = Vec::new();
    let mut i: usize = 0;
    while i < size
        invariant
            0 <= i <= size,
            r@ == Seq::new(i as nat, |j: int| 0u8),
        decreases size - i,
    {
        r.push(0u8);
        i = i + 1;
        assert(r@ =~= Seq::new(i as nat, |j: int| 0u8));
    }
    r
}

/// Creates `new_account` at a derived address: the payer transfers the
/// rent-exemption minimum for `size` bytes, then `size` zero bytes are
/// allocated and ownership goes to `program_id`, both authorized by the
/// derivation proof `signer_seeds`. Either every step happens or none does.
pub fn create_new_account_raw(
    program_id: &Address,
    new_account_info: &mut Account,
    rent: &Rent,
    payer_info: &mut Account,
    size: usize,
    signer_seeds: &Vec<Vec<u8>>,
) -> (r: Result<(), ProgramError>)
    ensures
        r == create_outcome(program_id.bytes@, *old(new_account_info), *rent, *old(payer_info),
            size as nat, seeds_view(signer_seeds@)),
        r is Ok ==> {
            let required = minimum_balance_spec(*rent, size as nat);
            &&& final(payer_info).lamports == old(payer_info).lamports - required
            &&& final(payer_info).key == old(payer_info).key
            &&& final(payer_info).data == old(payer_info).data
            &&& final(payer_info).owner == old(payer_info).owner
            &&& final(payer_info).is_signer == old(payer_info).is_signer
            &&& final(payer_info).token == old(payer_info).token
            &&& final(new_account_info).lamports == old(new_account_info).lamports + required
            &&& final(new_account_info).data@ == Seq::new(size as nat, |i: int| 0u8)
            &&& final(new_account_info).owner.bytes@ == program_id.bytes@
            &&& final(new_account_info).key == old(new_account_info).key
            &&& final(new_account_info).is_signer == old(new_account_info).is_signer
            &&& final(new_account_info).token == old(new_account_info).token
        },
        r is Err ==> *final(new_account_info) == *old(new_account_info) && *final(payer_info) == *old(payer_info),
{
    let required_lamports = match rent.minimum_balance(size) {
        Some(m) => m,
        None => return Err(ProgramError::ArithmeticOverflow),
    };
    if required_lamports > 0 {
        if !payer_info.is_signer {
            return Err(ProgramError::MissingRequiredSignature);
        }
        if payer_info.lamports < required_lamports {
            return Err(ProgramError::InsufficientFunds);
        }
        if new_account_info.lamports > u64::MAX - required_lamports {
            return Err(ProgramError::ArithmeticOverflow);
        }
    }
    if !signed_by_seed_set(new_account_info, signer_seeds, program_id) {
        return Err(ProgramError::MissingRequiredSignature);
    }
    let system = system_program_address();
    if new_account_info.data.len() != 0 || !cmp_pubkeys(&new_account_info.owner, &system) {
        return Err(ProgramError::AccountAlreadyInUse);
    }
    if size > MAX_PERMITTED_DATA_LENGTH {
        return Err(ProgramError::InvalidArgument);
    }
    payer_info.lamports = payer_info.lamports - required_lamports;
    new_account_info.lamports = new_account_info.lamports + required_lamports;
    new_account_info.data = zeroed(size);
    new_account_info.owner = *program_id;
    Ok(())
}

} // verus!
