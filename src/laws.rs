use vstd::prelude::*;
use vstd::utf8::valid_utf8;

use crate::account::AccountState;
use crate::handler::{accounts_after, outcome, rejection, HandlerError};

verus! {

/// A well-formed payload that fits the first account's buffer, when that
/// account is writable, is accepted, and the buffer then starts with it.
pub proof fn lemma_valid_payload_is_stored(accounts: Seq<AccountState>, payload: Seq<u8>)
    requires
        valid_utf8(payload),
        accounts.len() > 0,
        accounts[0].is_writable,
        payload.len() <= accounts[0].data.len(),
    ensures
        outcome(accounts, payload) is Ok,
        accounts_after(accounts, payload).len() == accounts.len(),
        accounts_after(accounts, payload)[0].data.subrange(0, payload.len() as int) == payload,
{
    let after = accounts_after(accounts, payload);
    assert(after[0].data.subrange(0, payload.len() as int) =~= payload);
}

/// A payload that is not well-formed UTF-8 is refused as such, whatever the
/// accounts, and no account changes.
pub proof fn lemma_malformed_payload_is_refused(accounts: Seq<AccountState>, payload: Seq<u8>)
    requires
        !valid_utf8(payload),
    ensures
        outcome(accounts, payload) == Err::<Seq<char>, HandlerError>(
            HandlerError::InvalidPayloadEncoding,
        ),
        accounts_after(accounts, payload) == accounts,
{
}

/// A well-formed payload aimed at a first account that is not writable is
/// refused as such, and no account changes.
pub proof fn lemma_read_only_account_is_refused(accounts: Seq<AccountState>, payload: Seq<u8>)
    requires
        valid_utf8(payload),
        accounts.len() > 0,
        !accounts[0].is_writable,
    ensures
        outcome(accounts, payload) == Err::<Seq<char>, HandlerError>(
            HandlerError::AccountNotWritable,
        ),
        accounts_after(accounts, payload) == accounts,
{
}

/// Invoking twice with the same payload gives the same result and leaves the
/// accounts as invoking once does.
pub proof fn lemma_invocation_is_idempotent(accounts: Seq<AccountState>, payload: Seq<u8>)
    ensures
        accounts_after(accounts_after(accounts, payload), payload) == accounts_after(
            accounts,
            payload,
        ),
        outcome(accounts_after(accounts, payload), payload) == outcome(accounts, payload),
{
    let once = accounts_after(accounts, payload);
    if rejection(accounts, payload) is None {
        assert(once[0].data.len() == accounts[0].data.len());
        assert(rejection(once, payload) == rejection(accounts, payload));
        let twice = accounts_after(once, payload);
        assert(twice[0].data =~= once[0].data);
        assert(twice =~= once);
    }
}

/// A well-formed payload exactly as long as the writable first account's
/// buffer is accepted and fills that buffer.
pub proof fn lemma_payload_filling_buffer_is_stored(accounts: Seq<AccountState>, payload: Seq<u8>)
    requires
        valid_utf8(payload),
        accounts.len() > 0,
        accounts[0].is_writable,
        payload.len() == accounts[0].data.len(),
    ensures
        outcome(accounts, payload) is Ok,
        accounts_after(accounts, payload)[0].data == payload,
{
    assert(accounts_after(accounts, payload)[0].data =~= payload);
}

/// A well-formed payload longer than the writable first account's buffer is
/// refused as such, and no account changes.
pub proof fn lemma_oversized_payload_is_refused(accounts: Seq<AccountState>, payload: Seq<u8>)
    requires
        valid_utf8(payload),
        accounts.len() > 0,
        accounts[0].is_writable,
        payload.len() > accounts[0].data.len(),
    ensures
        outcome(accounts, payload) == Err::<Seq<char>, HandlerError>(
            HandlerError::PayloadExceedsBufferCapacity,
        ),
        accounts_after(accounts, payload) == accounts,
{
}

} // verus!
