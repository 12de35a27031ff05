use solana_buyer::address::{address_to_string, parse_address, parse_signature, Address};
use solana_buyer::decoder::{
    check_not_reverted, decode_fetched, decode_transaction, find_amm_instruction, get_transaction_signature,
    get_useful_account_indexes_from_transaction, DecodeError, InstructionRecord, LogNotification,
    TransactionRecord, AMM_V4,
};

const POOL: &str = "9xQeWvG816bUx9EPjHmaT23yvVM2ZWbrrpZb9PusVFin";
const MARKET: &str = "srmqPvymJeFKQ4zGQed1GFppgkRHL9kaELCbyksJtPX";
const BASE: &str = "So11111111111111111111111111111111111111112";
const QUOTE: &str = "TokenkegQfeZyiNwAJbNbGKPFXCWuBvf9Ss623VQ5DA";
const FILLER: &str = "11111111111111111111111111111111";

fn keys() -> Vec<String> {
    // 0: filler, 1: AMM program, 2: pool, 3: market, 4: base, 5: quote
    vec![
        FILLER.to_string(),
        AMM_V4.to_string(),
        POOL.to_string(),
        MARKET.to_string(),
        BASE.to_string(),
        QUOTE.to_string(),
    ]
}

fn init_accounts() -> Vec<u8> {
    // positions 4 (pool), 8 (base), 9 (quote), 16 (market) matter
    let mut a = vec![0u8; 17];
    a[4] = 2;
    a[8] = 4;
    a[9] = 5;
    a[16] = 3;
    a
}

fn raw(instructions: Vec<InstructionRecord>, account_keys: Vec<String>) -> TransactionRecord {
    TransactionRecord::Raw { account_keys, instructions }
}

#[test]
fn decodes_pool_initialisation() {
    let tx = raw(
        vec![
            InstructionRecord { program_id_index: 0, accounts: vec![1, 2] },
            InstructionRecord { program_id_index: 1, accounts: init_accounts() },
        ],
        keys(),
    );
    let e = decode_transaction(&tx).expect("decodes");
    assert_eq!(address_to_string(&e.amm_id), POOL);
    assert_eq!(address_to_string(&e.market_id), MARKET);
    assert_eq!(address_to_string(&e.base_mint), BASE);
    assert_eq!(address_to_string(&e.quote_mint), QUOTE);
}

#[test]
fn reverted_notification_is_rejected_before_lookup() {
    let n = LogNotification { signature: "1".repeat(64), reverted: true };
    assert_eq!(check_not_reverted(&n), Err(DecodeError::Reverted));
    let bad = LogNotification { signature: "not base58 0OIl".to_string(), reverted: true };
    assert_eq!(check_not_reverted(&bad), Err(DecodeError::Reverted));
    let live = LogNotification { signature: "0OIl".to_string(), reverted: false };
    assert_eq!(check_not_reverted(&live), Ok(()));
}

#[test]
fn signature_parse_ignores_the_reverted_mark() {
    let n = LogNotification { signature: "1".repeat(64), reverted: true };
    assert_eq!(get_transaction_signature(&n), Ok(vec![0u8; 64]));
}

#[test]
fn signature_of_live_notification_is_parsed() {
    let n = LogNotification { signature: "1".repeat(64), reverted: false };
    assert_eq!(get_transaction_signature(&n), Ok(vec![0u8; 64]));
    let bad = LogNotification { signature: "0OIl".to_string(), reverted: false };
    assert_eq!(get_transaction_signature(&bad), Err(DecodeError::FetchFailed));
}

#[test]
fn failed_lookup_is_fetch_failed() {
    assert_eq!(decode_fetched(&None).unwrap_err(), DecodeError::FetchFailed);
}

#[test]
fn missing_instruction_is_reported() {
    let tx = raw(vec![InstructionRecord { program_id_index: 0, accounts: init_accounts() }], keys());
    assert_eq!(decode_transaction(&tx).unwrap_err(), DecodeError::InstructionNotFound);
    // A program position outside the keys matches nothing, and does not panic.
    let tx = raw(vec![InstructionRecord { program_id_index: 200, accounts: init_accounts() }], keys());
    assert_eq!(decode_transaction(&tx).unwrap_err(), DecodeError::InstructionNotFound);
    assert_eq!(
        decode_transaction(&TransactionRecord::Unsupported).unwrap_err(),
        DecodeError::InstructionNotFound
    );
}

#[test]
fn short_account_list_is_index_missing() {
    let mut short = init_accounts();
    short.truncate(16);
    let tx = raw(vec![InstructionRecord { program_id_index: 1, accounts: short }], keys());
    assert_eq!(decode_transaction(&tx).unwrap_err(), DecodeError::AccountIndexMissing);
    assert_eq!(
        get_useful_account_indexes_from_transaction(&tx),
        Err(DecodeError::AccountIndexMissing)
    );
}

#[test]
fn key_position_outside_keys_is_index_missing() {
    let mut acc = init_accounts();
    acc[16] = 40;
    let tx = raw(vec![InstructionRecord { program_id_index: 1, accounts: acc }], keys());
    assert_eq!(decode_transaction(&tx).unwrap_err(), DecodeError::AccountIndexMissing);
}

#[test]
fn malformed_address_is_invalid() {
    let mut k = keys();
    k[4] = "not-an-address".to_string();
    let tx = raw(vec![InstructionRecord { program_id_index: 1, accounts: init_accounts() }], k);
    assert_eq!(decode_transaction(&tx).unwrap_err(), DecodeError::InvalidAddress);
}

#[test]
fn first_matching_instruction_is_used() {
    let instructions = vec![
        InstructionRecord { program_id_index: 0, accounts: vec![] },
        InstructionRecord { program_id_index: 1, accounts: vec![7] },
        InstructionRecord { program_id_index: 1, accounts: init_accounts() },
    ];
    assert_eq!(find_amm_instruction(&keys(), &instructions), Some(1));
    assert_eq!(find_amm_instruction(&keys(), &vec![]), None);
}

#[test]
fn address_parsing_round_trips() {
    let zero = parse_address(FILLER).expect("valid");
    assert_eq!(zero.bytes, [0u8; 32]);
    let sol = parse_address(BASE).expect("valid");
    assert_ne!(sol.bytes, [0u8; 32]);
    assert_eq!(address_to_string(&sol), BASE);
    assert_eq!(address_to_string(&Address { bytes: [0u8; 32] }), FILLER);
    assert!(parse_address("").is_none());
    assert!(parse_address("0OIl").is_none());
    assert!(parse_signature(FILLER).is_none());
}
