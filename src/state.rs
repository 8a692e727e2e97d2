use vstd::prelude::*;
use crate::error::ProgramError;

verus! {

/// The exact byte length of a stored record.
pub const FLAG_ACCOUNT_SIZE: usize = 1;

/// The persistent record that marks a reference as stamped.
#[derive(Debug, Clone, Copy, PartialEq, Eq, Structural)]
pub struct Stamp {
    pub is_initialized: bool,
}

/// The byte that encodes a flag: 1 for true, 0 for false.
pub open spec fn flag_byte(b: bool) -> u8 {
    if b { 1u8 } else { 0u8 }
}

/// The bytes of `dst` after `s` is written at its start.
pub open spec fn packed_into(s: Stamp, dst: Seq<u8>) -> Seq<u8> {
    dst.update(0, flag_byte(s.is_initialized))
}

/// The encoding of a record on its own.
pub open spec fn packed(s: Stamp) -> Seq<u8> {
    seq![flag_byte(s.is_initialized)]
}

/// What the first byte of a record holds, read leniently: bytes after it are
/// not looked at.
pub open spec fn decoded_fields(src: Seq<u8>) -> Result<Stamp, ProgramError> {
    if src[0] == 0 {
        Ok(Stamp { is_initialized: false })
    } else if src[0] == 1 {
        Ok(Stamp { is_initialized: true })
    } else {
        Err(ProgramError::InvalidRecordEncoding)
    }
}

/// The record stored in `src`: the length must be exact.
pub open spec fn unpacked(src: Seq<u8>) -> Result<Stamp, ProgramError> {
    if src.len() != FLAG_ACCOUNT_SIZE {
        Err(ProgramError::InvalidAccountData)
    } else {
        decoded_fields(src)
    }
}

/// The record stored in `src`, which must be initialized.
pub open spec fn unpacked_initialized(src: Seq<u8>) -> Result<Stamp, ProgramError> {
    match unpacked(src) {
        Ok(s) => if s.is_initialized { Ok(s) } else { Err(ProgramError::UninitializedAccount) },
        Err(e) => Err(e),
    }
}

impl Default for Stamp {
    fn default() -> (r: Stamp)
        ensures
            !r.is_initialized,
    {
        Stamp { is_initialized: false }
    }
}

impl Stamp {
    pub const LEN: usize = FLAG_ACCOUNT_SIZE;

    pub fn is_initialized(&self) -> (r: bool)
        ensures
            r == self.is_initialized,
    {
        self.is_initialized
    }

    /// Writes the record at the start of `dst`; the rest is left as it is.
    pub fn pack_into_slice(&self, dst: &mut Vec<u8>)
        requires
            old(dst)@.len() >= FLAG_ACCOUNT_SIZE,
        ensures
            final(dst)@ == packed_into(*self, old(dst)@),
    {
        let b: u8 = if self.is_initialized { 1 } else { 0 };
        dst.set(0, b);
    }

    /// Reads a record from a buffer of exactly the record's length.
    pub fn unpack_from_slice(src: &[u8]) -> (r: Result<Stamp, ProgramError>)
        ensures
            r == unpacked(src@),
    {
        if src.len() != FLAG_ACCOUNT_SIZE {
            return Err(ProgramError::InvalidAccountData);
        }
        let b = src[0];
        if b == 0 {
            Ok(Stamp { is_initialized: false })
        } else if b == 1 {
            Ok(Stamp { is_initialized: true })
        } else {
            Err(ProgramError::InvalidRecordEncoding)
        }
    }

    /// Reads a record whether or not it is initialized.
    pub fn unpack_unchecked(src: &[u8]) -> (r: Result<Stamp, ProgramError>)
        ensures
            r == unpacked(src@),
    {
        Self::unpack_from_slice(src)
    }

    /// Reads a record that must be initialized.
    pub fn unpack(src: &[u8]) -> (r: Result<Stamp, ProgramError>)
        ensures
            r == unpacked_initialized(src@),
    {
        let s = Self::unpack_from_slice(src)?;
        if !s.is_initialized {
            return Err(ProgramError::UninitializedAccount);
        }
        Ok(s)
    }

    /// Writes `src` into `dst`, which must have exactly the record's length.
    pub fn pack(src: Stamp, dst: &mut Vec<u8>) -> (r: Result<(), ProgramError>)
        ensures
            old(dst)@.len() == FLAG_ACCOUNT_SIZE ==> r is Ok && final(dst)@ == packed(src),
            old(dst)@.len() != FLAG_ACCOUNT_SIZE ==> r == Err::<(), ProgramError>(
                ProgramError::InvalidAccountData,
            ) && final(dst)@ == old(dst)@,
    {
        if dst.len() != FLAG_ACCOUNT_SIZE {
            return Err(ProgramError::InvalidAccountData);
        }
        src.pack_into_slice(dst);
        assert(dst@ =~= packed(src));
        Ok(())
    }
}

/// Reading back a packed record gives the record: into a fresh buffer, or
/// into any buffer of the record's length.
pub proof fn lemma_pack_unpack_round_trip(s: Stamp, dst: Seq<u8>)
    requires
        dst.len() == FLAG_ACCOUNT_SIZE,
    ensures
        unpacked(packed(s)) == Ok::<Stamp, ProgramError>(s),
        unpacked(packed_into(s, dst)) == Ok::<Stamp, ProgramError>(s),
{
}

/// A buffer of any other length than the record's is refused.
pub proof fn lemma_unpack_rejects_length(src: Seq<u8>)
    requires
        src.len() != FLAG_ACCOUNT_SIZE,
    ensures
        unpacked(src) == Err::<Stamp, ProgramError>(ProgramError::InvalidAccountData),
{
}

} // verus!
