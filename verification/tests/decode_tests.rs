use solana_tps::classify::{count_user_transactions, is_vote_transaction};
use solana_tps::decode::{decode_block, decode_transactions, EncodedBlock};
use solana_tps::error::TpsError;
use solana_tps::traversal::{advance_encoded, Accumulator, Step, WindowTotals};

const VOTE_TX: &str = "AQAAAAAAAAAAAAAAAAAAAAAAAAAAAAAAAAAAAAAAAAAAAAAAAAAAAAAAAAAAAAAAAAAAAAAAAAAAAAAAAAAAAAABAAECAQEBAQEBAQEBAQEBAQEBAQEBAQEBAQEBAQEBAQEBAQEHYUgdNXR0u3xNdiTr072z2DVec9EQQ/wNo1OAAAAAAAAAAAAAAAAAAAAAAAAAAAAAAAAAAAAAAAAAAAAAAAAAAQEBAAA=";
const USER_TX: &str = "AQAAAAAAAAAAAAAAAAAAAAAAAAAAAAAAAAAAAAAAAAAAAAAAAAAAAAAAAAAAAAAAAAAAAAAAAAAAAAAAAAAAAAABAAECAQEBAQEBAQEBAQEBAQEBAQEBAQEBAQEBAQEBAQEBAQECAgICAgICAgICAgICAgICAgICAgICAgICAgICAgICAgAAAAAAAAAAAAAAAAAAAAAAAAAAAAAAAAAAAAAAAAAAAQEBAAA=";
const MIXED_TX: &str = "AQAAAAAAAAAAAAAAAAAAAAAAAAAAAAAAAAAAAAAAAAAAAAAAAAAAAAAAAAAAAAAAAAAAAAAAAAAAAAAAAAAAAAABAAIDAQEBAQEBAQEBAQEBAQEBAQEBAQEBAQEBAQEBAQEBAQEHYUgdNXR0u3xNdiTr072z2DVec9EQQ/wNo1OAAAAAAAICAgICAgICAgICAgICAgICAgICAgICAgICAgICAgICAAAAAAAAAAAAAAAAAAAAAAAAAAAAAAAAAAAAAAAAAAADAQEAAAIBAAACAQAA";
const PAYER_AS_PROGRAM_TX: &str = "AQAAAAAAAAAAAAAAAAAAAAAAAAAAAAAAAAAAAAAAAAAAAAAAAAAAAAAAAAAAAAAAAAAAAAAAAAAAAAAAAAAAAAABAAECAQEBAQEBAQEBAQEBAQEBAQEBAQEBAQEBAQEBAQEBAQEHYUgdNXR0u3xNdiTr072z2DVec9EQQ/wNo1OAAAAAAAAAAAAAAAAAAAAAAAAAAAAAAAAAAAAAAAAAAAAAAAAAAQABAAA=";

fn encoded(blobs: &[&str]) -> EncodedBlock {
    EncodedBlock {
        parent_slot: 41,
        height: 7,
        timestamp: 990,
        transactions: blobs.iter().map(|b| String::from(*b)).collect(),
    }
}

#[test]
fn decoded_vote_transaction_has_its_keys_and_instruction() {
    let txs = decode_transactions(&vec![String::from(VOTE_TX)]).unwrap();
    assert_eq!(txs.len(), 1);
    assert_eq!(txs[0].account_keys.len(), 2);
    assert_eq!(txs[0].account_keys[0].bytes, [1u8; 32]);
    assert_eq!(txs[0].account_keys[1].bytes, solana_sdk_ids::vote::id().to_bytes());
    assert_eq!(txs[0].instructions.len(), 1);
    assert_eq!(txs[0].instructions[0].program_id_index, 1);
    assert_eq!(is_vote_transaction(&txs[0]), Ok(true));
}

#[test]
fn decoded_transactions_keep_their_order() {
    let blobs = vec![String::from(USER_TX), String::from(MIXED_TX), String::from(VOTE_TX)];
    let txs = decode_transactions(&blobs).unwrap();
    assert_eq!(txs.len(), 3);
    assert_eq!(txs[0].account_keys[1].bytes, [2u8; 32]);
    assert_eq!(txs[1].account_keys.len(), 3);
    let indices: Vec<u8> = txs[1].instructions.iter().map(|i| i.program_id_index).collect();
    assert_eq!(indices, vec![1, 2, 2]);
    assert_eq!(is_vote_transaction(&txs[0]), Ok(false));
    assert_eq!(is_vote_transaction(&txs[1]), Ok(false));
    assert_eq!(is_vote_transaction(&txs[2]), Ok(true));
}

#[test]
fn text_that_is_no_transaction_is_a_decode_failure() {
    let blobs = vec![String::from(VOTE_TX), String::from("not a transaction")];
    assert_eq!(decode_transactions(&blobs).err(), Some(TpsError::Decode));
    assert_eq!(decode_transactions(&vec![String::new()]).err(), Some(TpsError::Decode));
}

#[test]
fn transaction_that_fails_its_checks_is_a_decode_failure() {
    let blobs = vec![String::from(PAYER_AS_PROGRAM_TX)];
    assert_eq!(decode_transactions(&blobs).err(), Some(TpsError::Decode));
}

#[test]
fn empty_list_decodes_to_an_empty_list() {
    assert_eq!(decode_transactions(&Vec::new()).map(|v| v.len()), Ok(0));
}

#[test]
fn decoded_block_keeps_its_header() {
    let block = decode_block(&encoded(&[VOTE_TX, USER_TX, MIXED_TX, VOTE_TX])).unwrap();
    assert_eq!(block.parent_slot, 41);
    assert_eq!(block.height, 7);
    assert_eq!(block.timestamp, 990);
    assert_eq!(block.transactions.len(), 4);
    assert_eq!(count_user_transactions(&block), Ok(2));
}

#[test]
fn block_with_a_bad_transaction_does_not_decode() {
    assert_eq!(decode_block(&encoded(&[USER_TX, "@@@"])).err(), Some(TpsError::Decode));
}

#[test]
fn encoded_step_counts_the_decoded_block() {
    let acc = Accumulator { newest_timestamp: 1000, timestamp_threshold: 940, total: 10 };
    let current = encoded(&[VOTE_TX, USER_TX, MIXED_TX]);
    assert_eq!(
        advance_encoded(acc, &current, 950, 6),
        Ok(Step::Continue(Accumulator {
            newest_timestamp: 1000,
            timestamp_threshold: 940,
            total: 12
        }))
    );
    assert_eq!(
        advance_encoded(acc, &current, 930, 6),
        Ok(Step::Done(WindowTotals {
            oldest_timestamp: 930,
            newest_timestamp: 1000,
            total_user_transactions: 12
        }))
    );
}

#[test]
fn encoded_step_fails_on_a_bad_transaction() {
    let acc = Accumulator { newest_timestamp: 1000, timestamp_threshold: 940, total: 0 };
    assert_eq!(advance_encoded(acc, &encoded(&["AAAA"]), 950, 6), Err(TpsError::Decode));
}
