use vstd::prelude::*;
use vstd::utf8::{decode_utf8, valid_utf8};

use crate::account::{accounts_view, Account, AccountState};
use crate::text::decode_text;

verus! {

/// The address type of the host runtime, carried through unread.
#[verifier::external_type_specification]
#[verifier::external_body]
pub struct ExPubkey(solana_program::pubkey::Pubkey);

/// Why an invocation was refused. A refused invocation changes no account.
#[derive(Debug, Clone, Copy, PartialEq, Eq, Structural)]
pub enum HandlerError {
    /// The payload is not well-formed UTF-8.
    InvalidPayloadEncoding,
    /// The invocation names no account.
    NoAccountsProvided,
    /// The first account is not writable.
    AccountNotWritable,
    /// The payload is longer than the first account's data buffer.
    PayloadExceedsBufferCapacity,
}

/// The error an invocation with these accounts and this payload is refused
/// with, if any. The checks are made in this order.
pub open spec fn rejection(accounts: Seq<AccountState>, payload: Seq<u8>) -> Option<HandlerError> {
    if !valid_utf8(payload) {
        Some(HandlerError::InvalidPayloadEncoding)
    } else if accounts.len() == 0 {
        Some(HandlerError::NoAccountsProvided)
    } else if !accounts[0].is_writable {
        Some(HandlerError::AccountNotWritable)
    } else if payload.len() > accounts[0].data.len() {
        Some(HandlerError::PayloadExceedsBufferCapacity)
    } else {
        None
    }
}

/// A buffer whose leading bytes are replaced by the payload; the bytes past
/// the payload keep their old values.
pub open spec fn overwrite_prefix(buffer: Seq<u8>, payload: Seq<u8>) -> Seq<u8> {
    payload + buffer.subrange(payload.len() as int, buffer.len() as int)
}

/// The accounts after an invocation: unchanged when it is refused, else the
/// first account's buffer starts with the payload.
pub open spec fn accounts_after(accounts: Seq<AccountState>, payload: Seq<u8>) -> Seq<
    AccountState,
> {
    if rejection(accounts, payload) is Some {
        accounts
    } else {
        accounts.update(
            0,
            AccountState {
                is_writable: accounts[0].is_writable,
                data: overwrite_prefix(accounts[0].data, payload),
            },
        )
    }
}

/// What an invocation returns: the refusal, or the stored text.
pub open spec fn outcome(accounts: Seq<AccountState>, payload: Seq<u8>) -> Result<
    Seq<char>,
    HandlerError,
> {
    match rejection(accounts, payload) {
        Some(e) => Err(e),
        None => Ok(decode_utf8(payload)),
    }
}

/// The mathematical value of a handler's result.
pub open spec fn result_view(r: Result<String, HandlerError>) -> Result<Seq<char>, HandlerError> {
    match r {
        Ok(text) => Ok(text@),
        Err(e) => Err(e),
    }
}

/// Copies `payload` over the leading bytes of `buffer`, leaving the rest as
/// it was.
pub fn write_prefix(buffer: &mut Vec<u8>, payload: &[u8])
    requires
        payload@.len() <= old(buffer)@.len(),
    ensures
        final(buffer)@ == overwrite_prefix(old(buffer)@, payload@),
{
    let n: usize = payload.len();
    let ghost original = buffer@;
    let mut i: usize = 0;
    while i < n
        invariant
            n == payload@.len(),
            n <= original.len(),
            i <= n,
            buffer@.len() == original.len(),
            forall|j: int| 0 <= j < i ==> buffer@[j] == payload@[j],
            forall|j: int| i <= j < original.len() ==> buffer@[j] == original[j],
        decreases n - i,
    {
        buffer[i] = payload[i];
        i = i + 1;
    }
    assert(buffer@ =~= overwrite_prefix(original, payload@));
}

/// Handles one invocation: checks that `instruction_data` is UTF-8 text, that
/// there is a first account, that it is writable and that its buffer can hold
/// the payload; then writes the payload over the start of that buffer and
/// returns the decoded text. The program's own address is not consulted.
pub fn process_instruction(
    program_id: &solana_program::pubkey::Pubkey,
    accounts: &mut Vec<Account>,
    instruction_data: &[u8],
) -> (r: Result<String, HandlerError>)
    ensures
        result_view(r) == outcome(accounts_view(old(accounts)@), instruction_data@),
        final(accounts)@.len() == old(accounts)@.len(),
        accounts_view(final(accounts)@) == accounts_after(
            accounts_view(old(accounts)@),
            instruction_data@,
        ),
{
    let text = match decode_text(instruction_data) {
        Some(text) => text,
        None => return Err(HandlerError::InvalidPayloadEncoding),
    };
    if accounts.len() == 0 {
        return Err(HandlerError::NoAccountsProvided);
    }
    if !accounts[0].is_writable {
        return Err(HandlerError::AccountNotWritable);
    }
    if instruction_data.len() > accounts[0].data.len() {
        return Err(HandlerError::PayloadExceedsBufferCapacity);
    }
    let ghost before = accounts_view(accounts@);
    write_prefix(&mut accounts[0].data, instruction_data);
    assert(accounts_view(accounts@) =~= accounts_after(before, instruction_data@));
    Ok(text)
}

} // verus!
