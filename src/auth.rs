//! The companion instruction: an ed25519 signature check bundled right before
//! the instruction it authorizes, in the same atomic transaction.
use crate::crypto::{ed25519_accepts, ed25519_verify};
use crate::errors::GhostErrors;
use crate::message::append_bytes;
use crate::state::Pubkey;
use vstd::prelude::*;

verus! {

/// The identifier of the runtime's ed25519 signature-check program.
pub const ED25519_PROGRAM_ID: [u8; 32] = [
    3, 125, 70, 214, 124, 147, 251, 190, 18, 249, 66, 143, 131, 141, 64, 255, 5, 112, 116, 73, 39,
    244, 138, 100, 252, 202, 112, 68, 128, 0, 0, 0,
];

/// Where the public key starts in a signature-check instruction's data.
pub const PUBKEY_OFFSET: usize = 16;

/// Where the signature starts in a signature-check instruction's data.
pub const SIGNATURE_OFFSET: usize = 48;

/// Where the signed message starts in a signature-check instruction's data.
pub const MESSAGE_OFFSET: usize = 112;

/// The length of a signature-check instruction's data whose message is a
/// 32-byte digest.
pub const CHECK_DATA_LEN: usize = 144;

/// One instruction of a transaction: the program it targets and its data.
#[derive(Clone, Debug, PartialEq, Eq)]
pub struct Instruction {
    pub program_id: Pubkey,
    pub data: Vec<u8>,
}

/// The instructions of the running transaction, and the index of the one
/// being executed.
#[derive(Clone, Debug, PartialEq, Eq)]
pub struct InstructionSysvar {
    pub instructions: Vec<Instruction>,
    pub current_index: usize,
}

/// The outcome of checking the companion instruction of the current one
/// against the trusted key and the digest of the payload being acted on.
pub open spec fn companion_check(
    sysvar: InstructionSysvar,
    trusted: Pubkey,
    message_hash: [u8; 32],
) -> Result<(), GhostErrors> {
    let ixs = sysvar.instructions@;
    let cur = sysvar.current_index as int;
    if cur < 1 || cur >= ixs.len() {
        Err(GhostErrors::InvalidSignature)
    } else {
        let ix = ixs[cur - 1];
        let data = ix.data@;
        if ix.program_id != ED25519_PROGRAM_ID {
            Err(GhostErrors::InvalidSignature)
        } else if data.len() < SIGNATURE_OFFSET {
            Err(GhostErrors::PubkeyParseFailed)
        } else if data.subrange(PUBKEY_OFFSET as int, SIGNATURE_OFFSET as int) != trusted@ {
            Err(GhostErrors::BackendPubkeyMismatch)
        } else if data.len() != CHECK_DATA_LEN || data.subrange(
            MESSAGE_OFFSET as int,
            CHECK_DATA_LEN as int,
        ) != message_hash@ || !ed25519_accepts(
            trusted,
            message_hash@,
            data.subrange(SIGNATURE_OFFSET as int, MESSAGE_OFFSET as int),
        ) {
            Err(GhostErrors::InvalidSignature)
        } else {
            Ok(())
        }
    }
}

/// The header of a signature-check instruction that carries one signature,
/// with the key, signature and message in its own data: the signature count,
/// a padding byte, then little-endian offsets and instruction indexes
/// (0xffff for "this instruction").
pub open spec fn check_header() -> Seq<u8> {
    seq![1u8, 0, 48, 0, 0xff, 0xff, 16, 0, 0xff, 0xff, 112, 0, 32, 0, 0xff, 0xff]
}

/// Whether two 32-byte values are equal.
pub fn keys_equal(a: &[u8; 32], b: &[u8; 32]) -> (r: bool)
    ensures
        r == (*a == *b),
{
    let mut i: usize = 0;
    while i < 32
        invariant
            i <= 32,
            forall|j: int| 0 <= j < i ==> a[j] == b[j],
        decreases 32 - i,
    {
        if a[i] != b[i] {
            return false;
        }
        i = i + 1;
    }
    assert(*a =~= *b);
    true
}

/// Whether `data` holds `expected` starting at `start`.
pub fn bytes_match_at(data: &[u8], start: usize, expected: &[u8]) -> (r: bool)
    requires
        start + expected@.len() <= data@.len(),
    ensures
        r == (data@.subrange(start as int, start + expected@.len()) == expected@),
{
    let data_len = data.len();
    let mut i: usize = 0;
    while i < expected.len()
        invariant
            data_len == data@.len(),
            i <= expected@.len(),
            start + expected@.len() <= data@.len(),
            forall|j: int| 0 <= j < i ==> data@[start + j] == expected@[j],
        decreases expected@.len() - i,
    {
        if data[start + i] != expected[i] {
            assert(data@.subrange(start as int, start + expected@.len())[i as int] != expected@[i as int]);
            return false;
        }
        i = i + 1;
    }
    assert(data@.subrange(start as int, start + expected@.len()) =~= expected@);
    true
}

/// The bytes of `data` from `start` up to `end`.
pub fn copy_range(data: &Vec<u8>, start: usize, end: usize) -> (r: Vec<u8>)
    requires
        start <= end <= data@.len(),
    ensures
        r@ == data@.subrange(start as int, end as int),
{
    let mut out: Vec<u8> = Vec::new();
    let mut i: usize = start;
    while i < end
        invariant
            start <= i <= end <= data@.len(),
            out@ == data@.subrange(start as int, i as int),
        decreases end - i,
    {
        out.push(data[i]);
        i = i + 1;
        assert(out@ =~= data@.subrange(start as int, i as int));
    }
    out
}

/// Checks that the instruction right before the current one is a signature
/// check, by the trusted key, of exactly `message_hash`, and that the
/// signature it carries is valid.
pub fn verify_signature(
    instruction_sysvar: &InstructionSysvar,
    backend_pubkey: &[u8; 32],
    message_hash: &[u8; 32],
) -> (r: Result<(), GhostErrors>)
    ensures
        r == companion_check(*instruction_sysvar, *backend_pubkey, *message_hash),
{
    let cur = instruction_sysvar.current_index;
    if cur < 1 || cur >= instruction_sysvar.instructions.len() {
        return Err(GhostErrors::InvalidSignature);
    }
    let ix = &instruction_sysvar.instructions[cur - 1];
    if !keys_equal(&ix.program_id, &ED25519_PROGRAM_ID) {
        return Err(GhostErrors::InvalidSignature);
    }
    if ix.data.len() < SIGNATURE_OFFSET {
        return Err(GhostErrors::PubkeyParseFailed);
    }
    if !bytes_match_at(ix.data.as_slice(), PUBKEY_OFFSET, backend_pubkey) {
        return Err(GhostErrors::BackendPubkeyMismatch);
    }
    if ix.data.len() != CHECK_DATA_LEN || !bytes_match_at(ix.data.as_slice(), MESSAGE_OFFSET, message_hash) {
        return Err(GhostErrors::InvalidSignature);
    }
    let signature = copy_range(&ix.data, SIGNATURE_OFFSET, MESSAGE_OFFSET);
    if !ed25519_verify(backend_pubkey, message_hash, signature.as_slice()) {
        return Err(GhostErrors::InvalidSignature);
    }
    Ok(())
}

/// The signature-check instruction that carries `signature` of `message`
/// under `public_key`, laid out as `verify_signature` reads it.
pub fn new_ed25519_instruction(public_key: &[u8; 32], signature: &[u8; 64], message: &[u8; 32]) -> (r:
    Instruction)
    ensures
        r.program_id == ED25519_PROGRAM_ID,
        r.data@ == check_header() + public_key@ + signature@ + message@,
{
    let mut data: Vec<u8> = vec![1u8, 0, 48, 0, 0xff, 0xff, 16, 0, 0xff, 0xff, 112, 0, 32, 0, 0xff, 0xff];
    assert(data@ =~= check_header());
    append_bytes(&mut data, public_key);
    append_bytes(&mut data, signature);
    append_bytes(&mut data, message);
    Instruction { program_id: ED25519_PROGRAM_ID, data }
}

} // verus!
