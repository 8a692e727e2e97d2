use vstd::prelude::*;
use crate::address::{cmp_pubkeys, create_program_address, program_address, seeds_view, Address};

verus! {

/// Fixed per-account storage overhead, in bytes, charged by the rent schedule.
pub const ACCOUNT_STORAGE_OVERHEAD: u64 = 128;

/// The balance state of a fungible-token account.
#[derive(Debug, Clone, Copy, PartialEq, Eq)]
pub struct TokenAccount {
    pub mint: Address,
    pub owner: Address,
    pub amount: u64,
}

/// One ledger account as an operation sees it.
#[derive(Debug, Clone, PartialEq, Eq)]
pub struct Account {
    pub key: Address,
    pub lamports: u64,
    pub data: Vec<u8>,
    pub owner: Address,
    /// Whether the holder of this address signed the current operation.
    pub is_signer: bool,
    /// The token balance held, where this is a token account.
    pub token: Option<TokenAccount>,
}

/// The ledger's storage-rent schedule: a price per byte-year and the number
/// of years' rent a balance must cover to be exempt.
#[derive(Debug, Clone, Copy, PartialEq, Eq)]
pub struct Rent {
    pub lamports_per_byte_year: u64,
    pub exemption_threshold_years: u64,
}

/// The address of the system service that owns every account not yet
/// assigned to a program: all zero bytes.
pub open spec fn system_program_id() -> Seq<u8> {
    Seq::new(32, |i: int| 0u8)
}

pub fn system_program_address() -> (r: Address)
    ensures
        r.bytes@ == system_program_id(),
{
    let r = Address { bytes: [0u8; 32] };
    assert(r.bytes@ =~= system_program_id());
    r
}

/// The exact rent-exemption minimum for `data_len` bytes, which may exceed
/// the integer range.
pub open spec fn minimum_balance_spec(rent: Rent, data_len: nat) -> int {
    (ACCOUNT_STORAGE_OVERHEAD + data_len) * rent.lamports_per_byte_year * rent.exemption_threshold_years
}

/// Whether `balance` exempts `data_len` bytes from rent.
pub open spec fn is_exempt_spec(rent: Rent, balance: u64, data_len: nat) -> bool {
    balance >= minimum_balance_spec(rent, data_len)
}

impl Rent {
    /// The minimum balance for `data_len` bytes to be rent-exempt; `None`
    /// where it exceeds the integer range.
    pub fn minimum_balance(&self, data_len: usize) -> (r: Option<u64>)
        ensures
            match r {
                Some(m) => m == minimum_balance_spec(*self, data_len as nat),
                None => minimum_balance_spec(*self, data_len as nat) > u64::MAX,
            },
    {
        let bytes: u64 = data_len as u64;
        let rate = self.lamports_per_byte_year;
        let years = self.exemption_threshold_years;
        if rate == 0 || years == 0 {
            proof {
                assert((ACCOUNT_STORAGE_OVERHEAD + data_len) * rate * years == 0) by (nonlinear_arith)
                    requires rate == 0 || years == 0;
            }
            return Some(0);
        }
        let size = match ACCOUNT_STORAGE_OVERHEAD.checked_add(bytes) {
            Some(v) => v,
            None => {
                proof {
                    let n = ACCOUNT_STORAGE_OVERHEAD + data_len;
                    assert(n * rate * years >= n) by (nonlinear_arith)
                        requires rate >= 1, years >= 1, n >= 0;
                }
                return None;
            },
        };
        let per_year = match size.checked_mul(rate) {
            Some(v) => v,
            None => {
                proof {
                    assert(size * rate * years >= size * rate) by (nonlinear_arith)
                        requires years >= 1, size * rate >= 0;
                }
                return None;
            },
        };
        per_year.checked_mul(years)
    }

    /// Whether `balance` exempts `data_len` bytes from rent.
    pub fn is_exempt(&self, balance: u64, data_len: usize) -> (r: bool)
        ensures
            r == is_exempt_spec(*self, balance, data_len as nat),
    {
        match self.minimum_balance(data_len) {
            Some(m) => balance >= m,
            None => false,
        }
    }
}

/// Whether a program-derived signature from one of `seed_sets` under
/// `program_id` speaks for `key`.
pub open spec fn signed_by_seeds(key: Seq<u8>, seed_sets: Seq<Seq<Seq<u8>>>, program_id: Seq<u8>) -> bool {
    exists|i: int| 0 <= i < seed_sets.len() && program_address(seed_sets[i], program_id) == Some(key)
}

/// The seed sets as byte sequences.
pub open spec fn seed_sets_view(seed_sets: Seq<Vec<Vec<u8>>>) -> Seq<Seq<Seq<u8>>> {
    seed_sets.map_values(|s: Vec<Vec<u8>>| seeds_view(s@))
}

/// Whether `account` authorized the operation: by its own signature, or by a
/// derivation proof of the calling program.
pub open spec fn authorized(account: Account, seed_sets: Seq<Seq<Seq<u8>>>, program_id: Seq<u8>) -> bool {
    account.is_signer || signed_by_seeds(account.key.bytes@, seed_sets, program_id)
}

/// Decides whether `account` authorized the operation, directly or through
/// one of the derivation proofs `seed_sets` presented by `program_id`.
pub fn is_authorized(account: &Account, seed_sets: &Vec<Vec<Vec<u8>>>, program_id: &Address) -> (r: bool)
    ensures
        r == authorized(*account, seed_sets_view(seed_sets@), program_id.bytes@),
{
    if account.is_signer {
        return true;
    }
    let mut i: usize = 0;
    while i < seed_sets.len()
        invariant
            0 <= i <= seed_sets@.len(),
            forall|j: int| 0 <= j < i ==> program_address(seed_sets_view(seed_sets@)[j], program_id.bytes@)
                != Some(account.key.bytes@),
        decreases seed_sets@.len() - i,
    {
        let derived = create_program_address(&seed_sets[i], program_id);
        assert(seed_sets_view(seed_sets@)[i as int] == seeds_view(seed_sets@[i as int]@));
        match derived {
            Some(a) => {
                if cmp_pubkeys(&a, &account.key) {
                    return true;
                }
            },
            None => {},
        }
        i = i + 1;
    }
    false
}

} // verus!
