use crate::bytes::{bytes_match, le_u16, le_u64, read_u16_le, read_u64_le};
use crate::errors::EventError;
use crate::introspection::{instruction_at, load_instruction_at, Instruction};
use crate::pubkey::Pubkey;
use crate::state::{Nonce, Ticket};
use vstd::prelude::*;

verus! {

broadcast use vstd::array::group_array_axioms;

/// Address of the host's ed25519 signature verifier.
pub const ED25519_PROGRAM_ID: [u8; 32] = [
    3, 125, 70, 214, 124, 147, 251, 190, 18, 249, 66, 143, 131, 141, 64, 255,
    5, 112, 116, 73, 39, 244, 138, 100, 252, 202, 112, 68, 128, 0, 0, 0,
];

/// Smallest ed25519 verify instruction that is looked at: a 16-byte header, a
/// 32-byte public key and a 64-byte signature.
pub const MIN_ED25519_DATA_LEN: usize = 112;

/// A signed message starts with the 32-byte nonce hash and the 8-byte nonce
/// value.
pub const MIN_MESSAGE_LEN: usize = 40;

/// The accounts that take part in a signature-gated check-in.
pub struct MarkTicketUsedEd25519 {
    pub ticket: Ticket,
    pub ticket_key: Pubkey,
    /// The nonce record to fill in; it exists for this ticket and hash only.
    pub nonce: Nonce,
    pub nonce_bump: u8,
    pub payer: Pubkey,
    /// The scanner that checks the ticket in.
    pub gate_operator: Pubkey,
    /// The serialized instruction list of the running transaction.
    pub instructions: Vec<u8>,
}

/// Audit record of a signature-gated check-in.
#[derive(Clone, Copy, Debug)]
pub struct TicketUsedWithNonce {
    pub ticket_pubkey: Pubkey,
    pub owner: Pubkey,
    pub mint: Pubkey,
    pub event: Pubkey,
    pub tier: Pubkey,
    pub gate_operator: Pubkey,
    pub checked_in_ts: i64,
    pub nonce_hash: [u8; 32],
}

/// Where the signed message starts in the data of a verify instruction.
pub open spec fn message_offset(data: Seq<u8>) -> int {
    le_u16(data[12], data[13])
}

/// How many bytes the signed message has.
pub open spec fn message_size(data: Seq<u8>) -> int {
    le_u16(data[14], data[15])
}

/// The data of a verify instruction shows that `signer` signed a message
/// that starts with `nonce_hash` and `nonce_value`.
pub open spec fn proves_check_in(
    data: Seq<u8>,
    signer: Pubkey,
    nonce_hash: [u8; 32],
    nonce_value: u64,
) -> bool {
    &&& data.len() >= 112
    &&& data.subrange(16, 48) == signer.bytes@
    &&& message_offset(data) + message_size(data) <= data.len()
    &&& message_size(data) >= 40
    &&& data.subrange(message_offset(data), message_offset(data) + 32) == nonce_hash@
    &&& le_u64(data, message_offset(data) + 32) == nonce_value
}

/// What the check of one instruction comes to: it must be addressed to the
/// ed25519 verifier, and its data must prove the check-in.
pub open spec fn instruction_verdict(
    program_id: Seq<u8>,
    data: Seq<u8>,
    signer: Pubkey,
    nonce_hash: [u8; 32],
    nonce_value: u64,
) -> Result<(), EventError> {
    if program_id != ED25519_PROGRAM_ID@ {
        Err(EventError::Ed25519InstructionMissing)
    } else if !proves_check_in(data, signer, nonce_hash, nonce_value) {
        Err(EventError::InvalidSignature)
    } else {
        Ok(())
    }
}

/// The position of the running instruction in its transaction, which the
/// host writes into the last two bytes of the instruction list, low byte
/// first. A list of fewer than two bytes has none.
pub open spec fn current_index(instructions: Seq<u8>) -> Result<usize, EventError> {
    if instructions.len() < 2 {
        Err(EventError::Ed25519InstructionMissing)
    } else {
        Ok(
            le_u16(
                instructions[instructions.len() - 2],
                instructions[instructions.len() - 1],
            ) as usize,
        )
    }
}

/// What the verification of a whole instruction list comes to: the running
/// instruction must not be the first of its transaction, and the one just
/// before it must be found by the host's introspection and pass
/// `instruction_verdict`.
pub open spec fn verdict(
    instructions: Seq<u8>,
    signer: Pubkey,
    nonce_hash: [u8; 32],
    nonce_value: u64,
) -> Result<(), EventError> {
    match current_index(instructions) {
        Err(error) => Err(error),
        Ok(index) => if index == 0 {
            Err(EventError::Ed25519InstructionMissing)
        } else {
            match instruction_at(index - 1, instructions) {
                None => Err(EventError::Ed25519InstructionMissing),
                Some((program_id, data)) => instruction_verdict(
                    program_id,
                    data,
                    signer,
                    nonce_hash,
                    nonce_value,
                ),
            }
        },
    }
}

/// A message whose nonce value differs from the one named is never
/// accepted: whatever else the instruction holds, the verdict is a refusal,
/// and on an instruction of the ed25519 verifier it is `InvalidSignature`.
pub proof fn law_mismatched_nonce_value_is_refused(
    program_id: Seq<u8>,
    data: Seq<u8>,
    signer: Pubkey,
    nonce_hash: [u8; 32],
    nonce_value: u64,
)
    requires
        data.len() >= 112 ==> le_u64(data, message_offset(data) + 32) != nonce_value,
    ensures
        instruction_verdict(program_id, data, signer, nonce_hash, nonce_value) is Err,
        program_id == ED25519_PROGRAM_ID@ ==> instruction_verdict(
            program_id,
            data,
            signer,
            nonce_hash,
            nonce_value,
        ) == Err::<(), EventError>(EventError::InvalidSignature),
{
}

/// Checks one instruction of the transaction as evidence for a check-in:
/// it must be addressed to the ed25519 verifier, carry the public key of
/// `expected_signer`, and its signed message must start with `nonce_hash`
/// followed by `nonce_value`, lowest byte first.
pub fn check_ed25519_instruction(
    instruction: &Instruction,
    expected_signer: &Pubkey,
    nonce_hash: &[u8; 32],
    nonce_value: u64,
) -> (result: Result<(), EventError>)
    ensures
        result == instruction_verdict(
            instruction.program_id.bytes@,
            instruction.data@,
            *expected_signer,
            *nonce_hash,
            nonce_value,
        ),
{
    let verifier = Pubkey { bytes: ED25519_PROGRAM_ID };
    if instruction.program_id != verifier {
        assert(instruction.program_id.bytes@ != ED25519_PROGRAM_ID@) by {
            if instruction.program_id.bytes@ == ED25519_PROGRAM_ID@ {
                assert(instruction.program_id.bytes =~= verifier.bytes);
            }
        }
        return Err(EventError::Ed25519InstructionMissing);
    }
    let data = instruction.data.as_slice();
    if data.len() < MIN_ED25519_DATA_LEN {
        return Err(EventError::InvalidSignature);
    }
    if !bytes_match(data, 16, &expected_signer.bytes) {
        return Err(EventError::InvalidSignature);
    }
    let offset: usize = read_u16_le(data, 12) as usize;
    let size: usize = read_u16_le(data, 14) as usize;
    if offset + size > data.len() {
        return Err(EventError::InvalidSignature);
    }
    if size < MIN_MESSAGE_LEN {
        return Err(EventError::InvalidSignature);
    }
    if !bytes_match(data, offset, nonce_hash) {
        return Err(EventError::InvalidSignature);
    }
    if read_u64_le(data, offset + 32) != nonce_value {
        return Err(EventError::InvalidSignature);
    }
    Ok(())
}

/// Reads the position of the running instruction from the last two bytes of
/// the instruction list, low byte first.
pub fn load_current_index_checked(instructions: &[u8]) -> (result: Result<usize, EventError>)
    ensures
        result == current_index(instructions@),
{
    if instructions.len() < 2 {
        return Err(EventError::Ed25519InstructionMissing);
    }
    Ok(read_u16_le(instructions, instructions.len() - 2) as usize)
}

/// Verifies that the instruction just before the running one is an ed25519
/// verification by `expected_signer` of a message that starts with
/// `nonce_hash` and `nonce_value`. The call is refused where the running
/// instruction is the first of its transaction, and where the list cannot be
/// read.
pub fn verify_ed25519_signature(
    instructions: &[u8],
    expected_signer: &Pubkey,
    nonce_hash: &[u8; 32],
    nonce_value: u64,
) -> (result: Result<(), EventError>)
    ensures
        result == verdict(instructions@, *expected_signer, *nonce_hash, nonce_value),
{
    let index = match load_current_index_checked(instructions) {
        Ok(index) => index,
        Err(error) => { return Err(error); },
    };
    if index == 0 {
        return Err(EventError::Ed25519InstructionMissing);
    }
    match load_instruction_at(index - 1, instructions) {
        None => Err(EventError::Ed25519InstructionMissing),
        Some(instruction) => check_ed25519_instruction(
            &instruction,
            expected_signer,
            nonce_hash,
            nonce_value,
        ),
    }
}

/// Why the check-in is refused, if it is: the first of the checks that fails.
pub open spec fn refusal(
    ctx: MarkTicketUsedEd25519,
    nonce_hash: [u8; 32],
    nonce_value: u64,
    now: i64,
) -> Option<EventError> {
    if ctx.ticket.used {
        Some(EventError::TicketAlreadyUsed)
    } else if ctx.ticket.refunded {
        Some(EventError::AlreadyRefunded)
    } else if verdict(ctx.instructions@, ctx.ticket.owner, nonce_hash, nonce_value) is Err {
        Some(verdict(ctx.instructions@, ctx.ticket.owner, nonce_hash, nonce_value)->Err_0)
    } else if now + 300 > i64::MAX {
        Some(EventError::ArithmeticOverflow)
    } else {
        None
    }
}

/// The ticket after it was checked in at `now` by `gate_operator`.
pub open spec fn checked_in(ticket: Ticket, gate_operator: Pubkey, now: i64) -> Ticket {
    Ticket { used: true, checked_in_ts: now, gate_operator, ..ticket }
}

/// The nonce that a check-in at `now` leaves behind: spent, and valid for
/// five minutes from `now` on.
pub open spec fn spent_nonce(ctx: MarkTicketUsedEd25519, nonce_hash: [u8; 32], now: i64) -> Nonce {
    Nonce {
        ticket: ctx.ticket_key,
        nonce_hash,
        used: true,
        created_at: now,
        expires_at: (now + 300) as i64,
        bump: ctx.nonce_bump,
    }
}

/// Checks a ticket in on the strength of a signature by its owner.
///
/// The transaction must carry, just before this instruction, an ed25519
/// verification of a message by the ticket's owner that starts with
/// `nonce_hash` and `nonce_value`. A used or refunded ticket is never
/// checked in. On success the ticket is used and the nonce record is written
/// as spent; otherwise nothing changes. `now` is the current time.
pub fn handler(
    ctx: &mut MarkTicketUsedEd25519,
    nonce_hash: [u8; 32],
    nonce_value: u64,
    now: i64,
) -> (result: Result<TicketUsedWithNonce, EventError>)
    ensures
        match refusal(*old(ctx), nonce_hash, nonce_value, now) {
            Some(error) => result == Err::<TicketUsedWithNonce, EventError>(error) && *final(ctx)
                == *old(ctx),
            None => {
                &&& result == Ok::<TicketUsedWithNonce, EventError>(
                    TicketUsedWithNonce {
                        ticket_pubkey: old(ctx).ticket_key,
                        owner: old(ctx).ticket.owner,
                        mint: old(ctx).ticket.mint,
                        event: old(ctx).ticket.event,
                        tier: old(ctx).ticket.tier,
                        gate_operator: old(ctx).gate_operator,
                        checked_in_ts: now,
                        nonce_hash,
                    },
                )
                &&& *final(ctx) == (MarkTicketUsedEd25519 {
                    ticket: checked_in(old(ctx).ticket, old(ctx).gate_operator, now),
                    nonce: spent_nonce(*old(ctx), nonce_hash, now),
                    ..*old(ctx)
                })
                &&& final(ctx).nonce.well_formed()
            },
        },
        old(ctx).ticket.used ==> result is Err,
        old(ctx).ticket.refunded ==> result is Err,
        old(ctx).ticket.well_formed() ==> final(ctx).ticket.well_formed(),
{
    if ctx.ticket.used {
        return Err(EventError::TicketAlreadyUsed);
    }
    if ctx.ticket.refunded {
        return Err(EventError::AlreadyRefunded);
    }
    match verify_ed25519_signature(
        ctx.instructions.as_slice(),
        &ctx.ticket.owner,
        &nonce_hash,
        nonce_value,
    ) {
        Ok(()) => {},
        Err(error) => { return Err(error); },
    }
    let expires_at = match now.checked_add(Nonce::DEFAULT_EXPIRY_SECONDS) {
        Some(expires_at) => expires_at,
        None => { return Err(EventError::ArithmeticOverflow); },
    };
    let nonce = Nonce {
        ticket: ctx.ticket_key,
        nonce_hash,
        used: false,
        created_at: now,
        expires_at,
        bump: ctx.nonce_bump,
    };
    if nonce.is_expired(now) {
        return Err(EventError::NonceExpired);
    }
    if nonce.used {
        return Err(EventError::NonceUsed);
    }
    ctx.ticket.used = true;
    ctx.ticket.checked_in_ts = now;
    ctx.ticket.gate_operator = ctx.gate_operator;
    ctx.nonce = Nonce { used: true, ..nonce };
    Ok(
        TicketUsedWithNonce {
            ticket_pubkey: ctx.ticket_key,
            owner: ctx.ticket.owner,
            mint: ctx.ticket.mint,
            event: ctx.ticket.event,
            tier: ctx.ticket.tier,
            gate_operator: ctx.ticket.gate_operator,
            checked_in_ts: now,
            nonce_hash,
        },
    )
}

} // verus!
