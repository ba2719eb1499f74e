use solana_common::deserialize::{split_anchor_discriminator, AccountError as DeserializeError};
use solana_common::fetch::{
    decode_account, decode_fetched, decode_fetched_reply, decode_replies, decode_reply,
    fetch_failed, Account, AccountError, AccountsFetch, FetchStep, MAX_FETCH_ACCOUNTS,
};
use solana_common::types::Pubkey;

fn account(data: Vec<u8>) -> Account {
    Account { lamports: 10, data, owner: Pubkey([4; 32]), executable: false, rent_epoch: 3 }
}

fn first_byte(data: &[u8]) -> Option<u8> {
    data.first().copied()
}

#[test]
fn split_anchor_discriminator_accepts_matching_data() {
    let data = [1, 2, 3, 4, 5, 6, 7, 8, 42, 43];
    assert_eq!(split_anchor_discriminator(&data, [1, 2, 3, 4, 5, 6, 7, 8]).unwrap(), &[42, 43]);
    let exact = [1, 2, 3, 4, 5, 6, 7, 8];
    assert!(split_anchor_discriminator(&exact, exact).unwrap().is_empty());
}

#[test]
fn split_anchor_discriminator_refuses_short_data() {
    match split_anchor_discriminator(&[1, 2, 3], [0; 8]) {
        Err(DeserializeError::InvalidDiscriminatorLength { actual }) => assert_eq!(actual, 3),
        other => panic!("unexpected {:?}", other),
    }
}

#[test]
fn split_anchor_discriminator_refuses_other_discriminator() {
    let data = [1, 2, 3, 4, 5, 6, 7, 9, 0];
    match split_anchor_discriminator(&data, [1, 2, 3, 4, 5, 6, 7, 8]) {
        Err(DeserializeError::InvalidDiscriminator { expected, actual }) => {
            assert_eq!(expected, [1, 2, 3, 4, 5, 6, 7, 8]);
            assert_eq!(actual, [1, 2, 3, 4, 5, 6, 7, 9]);
        }
        other => panic!("unexpected {:?}", other),
    }
}

#[test]
fn decoded_account_keeps_fields() {
    let decoded = decode_account(account(vec![5, 6]), &first_byte).unwrap();
    assert_eq!(decoded.data, 5);
    assert_eq!(decoded.lamports, 10);
    assert_eq!(decoded.owner, Pubkey([4; 32]));
    assert!(!decoded.executable);
    assert_eq!(decoded.rent_epoch, 3);
    assert!(decode_account(account(vec![]), &first_byte).is_none());
}

#[test]
fn replies_keep_slots_and_order() {
    let (decoded, slot) = decode_reply((None, 17), &first_byte);
    assert!(decoded.is_none());
    assert_eq!(slot, 17);
    let out = decode_replies(
        vec![(Some(account(vec![1])), 5), (None, 6), (Some(account(vec![])), 7), (Some(account(vec![3])), 8)],
        &first_byte,
    );
    assert_eq!(out.len(), 4);
    assert_eq!(out[0].0.as_ref().unwrap().data, 1);
    assert_eq!(out[0].1, 5);
    assert!(out[1].0.is_none());
    assert_eq!(out[1].1, 6);
    assert!(out[2].0.is_none());
    assert_eq!(out[3].0.as_ref().unwrap().data, 3);
    assert_eq!(out[3].1, 8);
}

#[test]
fn no_pubkeys_means_no_request() {
    let fetch: AccountsFetch<u8> = AccountsFetch::new(0);
    assert_eq!(fetch.next_step(), FetchStep::Done);
    assert!(fetch.finish().is_empty());
}

#[test]
fn pubkeys_are_fetched_in_chunks() {
    assert_eq!(MAX_FETCH_ACCOUNTS, 100);
    let mut fetch: AccountsFetch<u32> = AccountsFetch::new(250);
    let mut steps = Vec::new();
    loop {
        match fetch.next_step() {
            FetchStep::FetchChunk { start, end } => {
                steps.push((start, end));
                let chunk: Vec<Option<u32>> = (start..end).map(|i| Some(i as u32)).collect();
                fetch.on_chunk(chunk, start as u64 + 1000);
            }
            FetchStep::Done => break,
        }
    }
    assert_eq!(steps, vec![(0, 100), (100, 200), (200, 250)]);
    let accounts = fetch.finish();
    assert_eq!(accounts.len(), 250);
    assert_eq!(accounts[0], (Some(0), 1000));
    assert_eq!(accounts[150], (Some(150), 1100));
    assert_eq!(accounts[249], (Some(249), 1200));
}

#[test]
fn exact_multiple_needs_no_extra_request() {
    let mut fetch: AccountsFetch<u8> = AccountsFetch::new(100);
    assert_eq!(fetch.next_step(), FetchStep::FetchChunk { start: 0, end: 100 });
    fetch.on_chunk(vec![None; 100], 1);
    assert_eq!(fetch.next_step(), FetchStep::Done);
}

#[test]
fn failed_request_becomes_fetch_error() {
    match fetch_failed::<String>("boom".to_string()) {
        AccountError::FetchAccount { source } => assert_eq!(source, "boom"),
        _ => panic!("unexpected variant"),
    }
}

#[test]
fn failed_chunk_drops_the_fetch() {
    let mut fetch: AccountsFetch<u8> = AccountsFetch::new(150);
    fetch.on_chunk(vec![Some(1); 100], 1);
    match fetch.fail(7u32) {
        AccountError::FetchAccount { source } => assert_eq!(source, 7),
        _ => panic!("unexpected variant"),
    }
}

#[test]
fn fetch_faults_pass_through_decoding() {
    let failed: Result<Vec<(Option<Account>, u64)>, AccountError<u32>> =
        Err(AccountError::FetchAccount { source: 3 });
    match decode_fetched(failed, &first_byte) {
        Err(AccountError::FetchAccount { source }) => assert_eq!(source, 3),
        _ => panic!("the fault should pass through"),
    }
    let refused: Result<Vec<(Option<Account>, u64)>, AccountError<u32>> =
        Ok(vec![(Some(account(vec![])), 4)]);
    let out = decode_fetched(refused, &first_byte).ok().unwrap();
    assert!(out[0].0.is_none());
    assert_eq!(out[0].1, 4);
    let one: Result<(Option<Account>, u64), AccountError<u32>> = Ok((Some(account(vec![9])), 2));
    let (decoded, slot) = decode_fetched_reply(one, &first_byte).ok().unwrap();
    assert_eq!(decoded.unwrap().data, 9);
    assert_eq!(slot, 2);
    let failed_one: Result<(Option<Account>, u64), AccountError<u32>> =
        Err(AccountError::TooManyPubkeys { max: 1, actual: 2 });
    match decode_fetched_reply(failed_one, &first_byte) {
        Err(AccountError::TooManyPubkeys { max, actual }) => assert_eq!((max, actual), (1, 2)),
        _ => panic!("the fault should pass through"),
    }
}
