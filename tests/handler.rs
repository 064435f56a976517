use smart_contract::{process_instruction, Account, HandlerError};
use solana_program::pubkey::Pubkey;

fn program_id() -> Pubkey {
    Pubkey::new_from_array([7u8; 32])
}

#[test]
fn stores_hello_world_in_large_buffer() {
    let mut accounts = vec![Account::new(true, vec![0xAAu8; 64])];
    let payload = b"hello world!!";
    assert_eq!(payload.len(), 13);
    let r = process_instruction(&program_id(), &mut accounts, payload);
    assert_eq!(r, Ok(String::from("hello world!!")));
    assert!(r.unwrap().contains("hello world!!"));
    assert_eq!(&accounts[0].data[..13], payload);
    assert!(accounts[0].data[13..].iter().all(|b| *b == 0xAA));
    assert_eq!(accounts[0].data.len(), 64);
}

#[test]
fn malformed_utf8_is_refused_and_buffer_kept() {
    let mut accounts = vec![Account::new(true, vec![1u8, 2, 3, 4])];
    for payload in [&[0xFFu8][..], &[0xC3u8][..], &[0xC0u8, 0x80][..], &[0xEDu8, 0xA0, 0x80][..]] {
        let r = process_instruction(&program_id(), &mut accounts, payload);
        assert_eq!(r, Err(HandlerError::InvalidPayloadEncoding));
        assert_eq!(accounts[0].data, vec![1u8, 2, 3, 4]);
    }
}

#[test]
fn malformed_utf8_wins_over_read_only_account() {
    let mut accounts = vec![Account::new(false, vec![0u8; 4])];
    let r = process_instruction(&program_id(), &mut accounts, &[0x80u8]);
    assert_eq!(r, Err(HandlerError::InvalidPayloadEncoding));
}

#[test]
fn read_only_account_is_refused_and_buffer_kept() {
    let mut accounts = vec![Account::new(false, vec![9u8; 8])];
    let r = process_instruction(&program_id(), &mut accounts, b"data");
    assert_eq!(r, Err(HandlerError::AccountNotWritable));
    assert_eq!(accounts[0].data, vec![9u8; 8]);
}

#[test]
fn no_accounts_is_refused() {
    let mut accounts: Vec<Account> = Vec::new();
    let r = process_instruction(&program_id(), &mut accounts, b"data");
    assert_eq!(r, Err(HandlerError::NoAccountsProvided));
    assert!(accounts.is_empty());
}

#[test]
fn payload_exactly_filling_buffer_is_stored() {
    let mut accounts = vec![Account::new(true, vec![0u8; 5])];
    let r = process_instruction(&program_id(), &mut accounts, b"abcde");
    assert_eq!(r, Ok(String::from("abcde")));
    assert_eq!(accounts[0].data, b"abcde".to_vec());
}

#[test]
fn payload_longer_than_buffer_is_refused() {
    let mut accounts = vec![Account::new(true, vec![0u8; 4])];
    let r = process_instruction(&program_id(), &mut accounts, b"abcde");
    assert_eq!(r, Err(HandlerError::PayloadExceedsBufferCapacity));
    assert_eq!(accounts[0].data, vec![0u8; 4]);
}

#[test]
fn second_identical_call_changes_nothing() {
    let mut accounts = vec![Account::new(true, vec![5u8; 10])];
    let first = process_instruction(&program_id(), &mut accounts, "héllo".as_bytes());
    let after_once = accounts[0].data.clone();
    let second = process_instruction(&program_id(), &mut accounts, "héllo".as_bytes());
    assert_eq!(first, second);
    assert_eq!(accounts[0].data, after_once);
    assert_eq!(&accounts[0].data[..6], "héllo".as_bytes());
}

#[test]
fn empty_payload_succeeds_and_changes_nothing() {
    let mut accounts = vec![Account::new(true, vec![3u8; 3])];
    let r = process_instruction(&program_id(), &mut accounts, b"");
    assert_eq!(r, Ok(String::new()));
    assert_eq!(accounts[0].data, vec![3u8; 3]);
}

#[test]
fn only_first_account_is_written() {
    let mut accounts = vec![
        Account::new(true, vec![0u8; 4]),
        Account::new(true, vec![0u8; 4]),
    ];
    let r = process_instruction(&program_id(), &mut accounts, "€".as_bytes());
    assert_eq!(r, Ok(String::from("€")));
    assert_eq!(accounts[0].data, vec![0xE2u8, 0x82, 0xAC, 0]);
    assert_eq!(accounts[1].data, vec![0u8; 4]);
    assert!(accounts[0].is_writable);
}

#[test]
fn capacity_reports_buffer_length() {
    let account = Account::new(false, vec![0u8; 12]);
    assert_eq!(account.capacity(), 12);
}
