use vstd::prelude::*;
use crate::account::{minimum_balance_spec, signed_by_seeds, system_program_id, Account, Rent};
use crate::address::{
    is_canonical_bump, program_address, record_seeds, seeds_view, stamp_seeds, with_bump, Address,
};
use crate::error::ProgramError;
use crate::instruction::{decoded, StampArgs, StampInstruction};
use crate::state::{packed, unpacked, Stamp, FLAG_ACCOUNT_SIZE};
use crate::utils::{create_new_account_raw, create_outcome};

verus! {

/// The accounts of a record creation, in their roles.
#[derive(Debug, Clone, PartialEq, Eq)]
pub struct StampAccounts {
    /// Approves the creation; must sign.
    pub authority: Account,
    /// Funds the record's rent exemption; must sign.
    pub payer: Account,
    /// The record account, at the address derived from the reference.
    pub stamp: Account,
    /// The reference whose record is created.
    pub reference: Account,
}

/// The outcome of creating the record of `reference` at `stamp` with the
/// bump seed `bump`.
pub open spec fn init_outcome(
    program_id: Seq<u8>,
    authority: Account,
    payer: Account,
    stamp: Account,
    reference: Account,
    rent: Rent,
    bump: u8,
) -> Result<(), ProgramError> {
    if !authority.is_signer {
        Err(ProgramError::MissingRequiredSignature)
    } else if stamp.lamports > 0 || stamp.data@.len() > 0 {
        Err(ProgramError::AccountAlreadyInitialized)
    } else {
        create_outcome(program_id, stamp, rent, payer, FLAG_ACCOUNT_SIZE as nat,
            with_bump(stamp_seeds(reference.key.bytes@), bump))
    }
}

/// The states of payer and record after a successful creation: the payer
/// paid the rent-exemption minimum into the record, which is owned by the
/// program and holds an initialized record.
pub open spec fn init_post(
    program_id: Seq<u8>,
    rent: Rent,
    old_payer: Account,
    old_stamp: Account,
    payer: Account,
    stamp: Account,
) -> bool {
    let required = minimum_balance_spec(rent, FLAG_ACCOUNT_SIZE as nat);
    &&& payer.lamports == old_payer.lamports - required
    &&& payer.key == old_payer.key
    &&& payer.data == old_payer.data
    &&& payer.owner == old_payer.owner
    &&& payer.is_signer == old_payer.is_signer
    &&& payer.token == old_payer.token
    &&& stamp.lamports == old_stamp.lamports + required
    &&& stamp.data@ == packed(Stamp { is_initialized: true })
    &&& stamp.owner.bytes@ == program_id
    &&& stamp.key == old_stamp.key
    &&& stamp.is_signer == old_stamp.is_signer
    &&& stamp.token == old_stamp.token
}

/// Creates and initializes the record of `reference` exactly once: the
/// authority must sign, the record account must be empty, and the derivation
/// proof {prefix, reference, bump} must match the record's address. Nothing
/// changes on failure.
pub fn init(
    program_id: &Address,
    authority_info: &Account,
    payer_info: &mut Account,
    stamp_info: &mut Account,
    reference_info: &Account,
    rent: &Rent,
    args: StampArgs,
) -> (r: Result<(), ProgramError>)
    ensures
        r == init_outcome(program_id.bytes@, *authority_info, *old(payer_info), *old(stamp_info),
            *reference_info, *rent, args.bump),
        r is Ok ==> init_post(program_id.bytes@, *rent, *old(payer_info), *old(stamp_info),
            *final(payer_info), *final(stamp_info)),
        r is Err ==> *final(payer_info) == *old(payer_info) && *final(stamp_info) == *old(stamp_info),
{
    if !authority_info.is_signer {
        return Err(ProgramError::MissingRequiredSignature);
    }
    if stamp_info.lamports > 0 || stamp_info.data.len() > 0 {
        return Err(ProgramError::AccountAlreadyInitialized);
    }
    let seeds = record_seeds(&reference_info.key, Some(args.bump));
    create_new_account_raw(program_id, stamp_info, rent, payer_info, FLAG_ACCOUNT_SIZE, &seeds)?;
    assert(stamp_info.data@ =~= seq![0u8]);
    let stamp = match Stamp::unpack_unchecked(stamp_info.data.as_slice()) {
        Ok(s) => s,
        Err(e) => return Err(e),
    };
    if stamp.is_initialized() {
        return Err(ProgramError::AccountAlreadyInitialized);
    }
    let record = Stamp { is_initialized: true };
    let packed_result = Stamp::pack(record, &mut stamp_info.data);
    assert(packed_result is Ok);
    Ok(())
}

/// Decodes a payload and runs the command it holds.
pub struct Processor;

impl Processor {
    pub fn process(
        program_id: &Address,
        accounts: &mut StampAccounts,
        rent: &Rent,
        instruction_data: &[u8],
    ) -> (r: Result<(), ProgramError>)
        ensures
            match decoded(instruction_data@) {
                Err(e) => r == Err::<(), ProgramError>(e) && *final(accounts) == *old(accounts),
                Ok(StampInstruction::InitStamp(args)) => {
                    &&& r == init_outcome(program_id.bytes@, old(accounts).authority, old(accounts).payer,
                        old(accounts).stamp, old(accounts).reference, *rent, args.bump)
                    &&& r is Ok ==> init_post(program_id.bytes@, *rent, old(accounts).payer,
                        old(accounts).stamp, final(accounts).payer, final(accounts).stamp)
                    &&& r is Err ==> *final(accounts) == *old(accounts)
                    &&& final(accounts).authority == old(accounts).authority
                    &&& final(accounts).reference == old(accounts).reference
                },
            },
    {
        let instruction = StampInstruction::try_from_slice(instruction_data)?;
        match instruction {
            StampInstruction::InitStamp(args) => init(
                program_id,
                &accounts.authority,
                &mut accounts.payer,
                &mut accounts.stamp,
                &accounts.reference,
                rent,
                args,
            ),
        }
    }
}

/// What the ledger must do to create the record: move `funding` from the
/// payer to the record, allocate `size` bytes, and assign the record to
/// `owner`, the last two authorized by the derivation proof `seeds`.
pub struct CreationPlan {
    pub funding: u64,
    pub size: usize,
    pub owner: Address,
    pub seeds: Vec<Vec<u8>>,
}

/// The ledger steps that create the record of `reference` with bump seed
/// `bump`; `None` where the rent-exemption minimum exceeds the integer range,
/// in which case `init` fails too.
pub fn creation_plan(program_id: &Address, reference: &Account, rent: &Rent, args: StampArgs) -> (r: Option<CreationPlan>)
    ensures
        match r {
            Some(p) => {
                &&& p.funding == minimum_balance_spec(*rent, FLAG_ACCOUNT_SIZE as nat)
                &&& p.size == FLAG_ACCOUNT_SIZE
                &&& p.owner.bytes@ == program_id.bytes@
                &&& seeds_view(p.seeds@) == with_bump(stamp_seeds(reference.key.bytes@), args.bump)
            },
            None => minimum_balance_spec(*rent, FLAG_ACCOUNT_SIZE as nat) > u64::MAX,
        },
{
    let funding = rent.minimum_balance(FLAG_ACCOUNT_SIZE)?;
    let seeds = record_seeds(&reference.key, Some(args.bump));
    Some(CreationPlan { funding, size: FLAG_ACCOUNT_SIZE, owner: *program_id, seeds })
}

/// Creation succeeds on an empty, system-owned record account at the
/// address derived from the reference with its bump seed, when the
/// authority and payer sign and the payer covers the rent-exemption
/// minimum; the record is then owned by the program and reads back as
/// initialized.
pub proof fn lemma_init_succeeds(
    program_id: Seq<u8>,
    authority: Account,
    payer: Account,
    stamp: Account,
    reference: Account,
    rent: Rent,
    bump: u8,
    payer_after: Account,
    stamp_after: Account,
)
    requires
        authority.is_signer,
        payer.is_signer,
        minimum_balance_spec(rent, FLAG_ACCOUNT_SIZE as nat) <= u64::MAX,
        payer.lamports >= minimum_balance_spec(rent, FLAG_ACCOUNT_SIZE as nat),
        stamp.lamports == 0,
        stamp.data@.len() == 0,
        stamp.owner.bytes@ == system_program_id(),
        is_canonical_bump(stamp_seeds(reference.key.bytes@), program_id, bump, stamp.key.bytes@),
    ensures
        init_outcome(program_id, authority, payer, stamp, reference, rent, bump) is Ok,
        init_post(program_id, rent, payer, stamp, payer_after, stamp_after) ==> {
            &&& stamp_after.owner.bytes@ == program_id
            &&& unpacked(stamp_after.data@) == Ok::<Stamp, ProgramError>(Stamp { is_initialized: true })
        },
{
    let seeds = with_bump(stamp_seeds(reference.key.bytes@), bump);
    assert(seq![seeds][0] == seeds);
    assert(signed_by_seeds(stamp.key.bytes@, seq![seeds], program_id));
}

/// Creation with a bump seed whose proof does not derive the record's
/// address fails at the authorization step, before anything is created:
/// every other condition of a successful creation holding, the outcome is
/// `MissingRequiredSignature`, and `init` then leaves all accounts unchanged.
pub proof fn lemma_init_wrong_bump_fails(
    program_id: Seq<u8>,
    authority: Account,
    payer: Account,
    stamp: Account,
    reference: Account,
    rent: Rent,
    bump: u8,
)
    requires
        authority.is_signer,
        payer.is_signer,
        minimum_balance_spec(rent, FLAG_ACCOUNT_SIZE as nat) <= u64::MAX,
        payer.lamports >= minimum_balance_spec(rent, FLAG_ACCOUNT_SIZE as nat),
        stamp.lamports == 0,
        stamp.data@.len() == 0,
        !stamp.is_signer,
        program_address(with_bump(stamp_seeds(reference.key.bytes@), bump), program_id)
            != Some(stamp.key.bytes@),
    ensures
        init_outcome(program_id, authority, payer, stamp, reference, rent, bump)
            == Err::<(), ProgramError>(ProgramError::MissingRequiredSignature),
{
    let seeds = with_bump(stamp_seeds(reference.key.bytes@), bump);
    assert(seq![seeds][0] == seeds);
    assert(!signed_by_seeds(stamp.key.bytes@, seq![seeds], program_id));
}

/// A second creation with the same arguments after a successful one fails
/// with `AccountAlreadyInitialized`, whatever the payer's state by then:
/// creations of other records in between, which touch other record
/// accounts, change nothing of it.
pub proof fn lemma_init_at_most_once(
    program_id: Seq<u8>,
    authority: Account,
    payer: Account,
    stamp: Account,
    reference: Account,
    rent: Rent,
    bump: u8,
    payer_after: Account,
    stamp_after: Account,
    payer_later: Account,
)
    requires
        init_outcome(program_id, authority, payer, stamp, reference, rent, bump) is Ok,
        init_post(program_id, rent, payer, stamp, payer_after, stamp_after),
    ensures
        init_outcome(program_id, authority, payer_later, stamp_after, reference, rent, bump)
            == Err::<(), ProgramError>(ProgramError::AccountAlreadyInitialized),
{
}

} // verus!
