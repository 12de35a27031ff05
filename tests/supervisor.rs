use solana_buyer::address::{amm_associated_id, get_associated_authority, parse_address, Address};
use solana_buyer::decoder::PoolInitTxInfos;
use solana_buyer::supervisor::{
    worker_id, worker_label, worker_label_from_texts, GuardActor, Listener, SpawnOutcome,
    SpawnRejection,
};
use solana_sdk::pubkey::Pubkey;

fn addr(b: u8) -> Address {
    Address { bytes: [b; 32] }
}

fn event(pool: u8, market: u8) -> PoolInitTxInfos {
    PoolInitTxInfos { amm_id: addr(pool), market_id: addr(market), base_mint: addr(200), quote_mint: addr(201) }
}

fn spawned(o: SpawnOutcome) -> bool {
    matches!(o, SpawnOutcome::Spawned(_))
}

fn rejected(o: SpawnOutcome) -> Option<SpawnRejection> {
    match o {
        SpawnOutcome::Rejected(r) => Some(r),
        SpawnOutcome::Spawned(_) => None,
    }
}

#[test]
fn admits_until_the_ceiling() {
    let mut l = Listener::new(2);
    assert!(spawned(l.on_event(&event(1, 1))));
    assert!(spawned(l.on_event(&event(2, 2))));
    assert_eq!(l.child_count(), 2);
    assert_eq!(rejected(l.on_event(&event(3, 3))), Some(SpawnRejection::AtCapacity));
    assert_eq!(l.child_count(), 2);
}

#[test]
fn at_capacity_wins_over_shutdown() {
    let mut l = Listener::new(1);
    assert!(spawned(l.on_event(&event(1, 1))));
    l.stop();
    assert_eq!(rejected(l.on_event(&event(2, 2))), Some(SpawnRejection::AtCapacity));
    assert_eq!(l.child_count(), 1);
}

#[test]
fn zero_ceiling_rejects_everything() {
    let mut l = Listener::new(0);
    assert_eq!(rejected(l.on_event(&event(1, 1))), Some(SpawnRejection::AtCapacity));
    assert_eq!(l.child_count(), 0);
}

#[test]
fn stopped_listener_takes_no_work() {
    let mut l = Listener::new(3);
    l.stop();
    assert_eq!(rejected(l.on_event(&event(1, 1))), Some(SpawnRejection::ShuttingDown));
    assert_eq!(l.child_count(), 0);
}

#[test]
fn same_pool_is_not_spawned_twice() {
    let mut l = Listener::new(3);
    assert!(spawned(l.on_event(&event(1, 9))));
    assert_eq!(rejected(l.on_event(&event(1, 9))), Some(SpawnRejection::AlreadyRunning));
    assert!(spawned(l.on_event(&event(1, 8))));
    assert_eq!(l.child_count(), 2);
}

#[test]
fn termination_is_counted_once() {
    let mut l = Listener::new(3);
    let e = event(1, 1);
    assert!(spawned(l.on_event(&e)));
    assert!(spawned(l.on_event(&event(2, 2))));
    let id = worker_id(&e);
    assert!(l.on_child_terminated(&id));
    assert_eq!(l.child_count(), 1);
    assert!(!l.on_child_terminated(&id));
    assert_eq!(l.child_count(), 1);
    // the freed slot admits the same pool again
    assert!(spawned(l.on_event(&e)));
    assert_eq!(l.child_count(), 2);
}

#[test]
fn guard_wakes_once() {
    let mut g = GuardActor::new();
    assert!(g.on_target_terminated());
    assert!(!g.on_target_terminated());
    assert!(!g.on_target_terminated());
}

#[test]
fn worker_label_takes_three_characters_of_each() {
    assert_eq!(
        worker_label_from_texts(
            "9xQeWvG816bUx9EPjHmaT23yvVM2ZWbrrpZb9PusVFin",
            "675kPX9MHTjS2zt1qfr1NYHuzeLXfQM9H24wFSUt1Mp8"
        ),
        "swapper-9xQ675"
    );
    assert_eq!(worker_label_from_texts("ab", ""), "swapper-ab");
    let e = PoolInitTxInfos {
        amm_id: parse_address("675kPX9MHTjS2zt1qfr1NYHuzeLXfQM9H24wFSUt1Mp8").unwrap(),
        market_id: parse_address("9xQeWvG816bUx9EPjHmaT23yvVM2ZWbrrpZb9PusVFin").unwrap(),
        base_mint: addr(0),
        quote_mint: addr(0),
    };
    assert_eq!(worker_label(&worker_id(&e)), "swapper-9xQ675");
}

#[test]
fn associated_authority_is_first_valid_nonce() {
    let program = parse_address("srmqPvymJeFKQ4zGQed1GFppgkRHL9kaELCbyksJtPX").unwrap();
    let market = parse_address("9xQeWvG816bUx9EPjHmaT23yvVM2ZWbrrpZb9PusVFin").unwrap();
    let program_key = Pubkey::new_from_array(program.bytes);
    let mut expected = None;
    for nonce in 0u8..100 {
        let seeds: [&[u8]; 3] = [&market.bytes, &[nonce], &[0u8; 7]];
        if let Ok(k) = Pubkey::create_program_address(&seeds, &program_key) {
            expected = Some(k.to_bytes());
            break;
        }
    }
    let got = get_associated_authority(&program, &market).map(|a| a.bytes);
    assert_eq!(got, expected);
    assert!(got.is_some());
    assert_ne!(got, Some(market.bytes));
}

#[test]
fn pool_id_is_derived_from_market() {
    let program = parse_address("675kPX9MHTjS2zt1qfr1NYHuzeLXfQM9H24wFSUt1Mp8").unwrap();
    let market = parse_address("9xQeWvG816bUx9EPjHmaT23yvVM2ZWbrrpZb9PusVFin").unwrap();
    let program_key = Pubkey::new_from_array(program.bytes);
    let market_key = Pubkey::new_from_array(market.bytes);
    let (expected, _) = Pubkey::find_program_address(
        &[program_key.as_ref(), market_key.as_ref(), b"amm_associated_seed"],
        &program_key,
    );
    let got = amm_associated_id(&program, &market).unwrap();
    assert_eq!(got.bytes, expected.to_bytes());
    assert_ne!(got.bytes, market.bytes);
}
