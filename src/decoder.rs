use crate::address::{base58_pubkey, base58_signature, parse_address, parse_signature, Address};
use vstd::prelude::*;
use vstd::string::*;

verus! {

/// The market-making program whose pool-initialisation instruction is decoded.
pub const AMM_V4: &'static str = "675kPX9MHTjS2zt1qfr1NYHuzeLXfQM9H24wFSUt1Mp8";

/// Position of the pool id among the initialisation instruction's accounts.
pub const AMM_ID_INDEX_IN_INIT_INSTRUCTION: usize = 4;

/// Position of the market id among the initialisation instruction's accounts.
pub const MARKET_ID_INDEX_IN_INIT_INSTRUCTION: usize = 16;

/// Position of the base mint among the initialisation instruction's accounts.
pub const BASE_MINT_INDEX_IN_INIT_INSTRUCTION: usize = 8;

/// Position of the quote mint among the initialisation instruction's accounts.
pub const QUOTE_MINT_INDEX_IN_INIT_INSTRUCTION: usize = 9;

/// Why a notification did not yield a pool-initialisation event.
#[derive(Clone, Copy, Debug, PartialEq, Eq, Structural)]
pub enum DecodeError {
    /// The transaction failed on chain.
    Reverted,
    /// The transaction could not be looked up by its signature.
    FetchFailed,
    /// No instruction of the transaction calls the market-making program.
    InstructionNotFound,
    /// A role's position lies outside the instruction's or the transaction's accounts.
    AccountIndexMissing,
    /// An account text is not a well-formed address.
    InvalidAddress,
}

/// The part of a logs notification that decoding reads.
pub struct LogNotification {
    /// Base58 signature of the transaction that emitted the logs.
    pub signature: String,
    /// Whether the transaction's execution result marks it as reverted.
    pub reverted: bool,
}

/// One compiled instruction: the program's position among the transaction's
/// account keys, and the positions of the accounts it takes.
pub struct InstructionRecord {
    pub program_id_index: u8,
    pub accounts: Vec<u8>,
}

/// A confirmed transaction as the ledger returned it.
pub enum TransactionRecord {
    /// A raw message: account keys as base58 texts and compiled instructions.
    Raw { account_keys: Vec<String>, instructions: Vec<InstructionRecord> },
    /// Any other encoding, which carries no compiled instructions.
    Unsupported,
}

/// A decoded pool creation: the pool (AMM) id, its market, and its two mints.
#[derive(Clone, Copy, Debug)]
pub struct PoolInitTxInfos {
    pub amm_id: Address,
    pub market_id: Address,
    pub base_mint: Address,
    pub quote_mint: Address,
}

impl View for PoolInitTxInfos {
    type V = (Seq<u8>, Seq<u8>, Seq<u8>, Seq<u8>);

    open spec fn view(&self) -> Self::V {
        (self.amm_id@, self.market_id@, self.base_mint@, self.quote_mint@)
    }
}

/// Whether an instruction's program is the market-making program.
pub open spec fn targets_amm(keys: Seq<String>, ins: InstructionRecord) -> bool {
    (ins.program_id_index as int) < keys.len() && keys[ins.program_id_index as int]@ == AMM_V4@
}

/// The first of the first `n` instructions that targets the market-making program.
pub open spec fn first_amm_instruction(
    keys: Seq<String>,
    instructions: Seq<InstructionRecord>,
    n: nat,
) -> Option<nat>
    decreases n,
{
    if n == 0 {
        None
    } else {
        match first_amm_instruction(keys, instructions, (n - 1) as nat) {
            Some(i) => Some(i),
            None => if (n - 1) < instructions.len() && targets_amm(keys, instructions[n - 1]) {
                Some((n - 1) as nat)
            } else {
                None
            },
        }
    }
}

/// The account key that an instruction's account list names at `role`.
pub open spec fn role_key(keys: Seq<String>, accounts: Seq<u8>, role: int) -> Option<Seq<char>> {
    if 0 <= role < accounts.len() && (accounts[role] as int) < keys.len() {
        Some(keys[accounts[role] as int]@)
    } else {
        None
    }
}

/// What a raw message decodes to, once its initialisation instruction's
/// accounts are known.
pub open spec fn decode_accounts(keys: Seq<String>, accounts: Seq<u8>) -> Result<
    (Seq<u8>, Seq<u8>, Seq<u8>, Seq<u8>),
    DecodeError,
> {
    let amm = role_key(keys, accounts, AMM_ID_INDEX_IN_INIT_INSTRUCTION as int);
    let market = role_key(keys, accounts, MARKET_ID_INDEX_IN_INIT_INSTRUCTION as int);
    let base = role_key(keys, accounts, BASE_MINT_INDEX_IN_INIT_INSTRUCTION as int);
    let quote = role_key(keys, accounts, QUOTE_MINT_INDEX_IN_INIT_INSTRUCTION as int);
    if amm is None || market is None || base is None || quote is None {
        Err(DecodeError::AccountIndexMissing)
    } else {
        let a = base58_pubkey(amm->0);
        let m = base58_pubkey(market->0);
        let b = base58_pubkey(base->0);
        let q = base58_pubkey(quote->0);
        if a is Some && m is Some && b is Some && q is Some {
            Ok((a->0, m->0, b->0, q->0))
        } else {
            Err(DecodeError::InvalidAddress)
        }
    }
}

/// What a fetched transaction decodes to.
pub open spec fn decode_spec(tx: TransactionRecord) -> Result<
    (Seq<u8>, Seq<u8>, Seq<u8>, Seq<u8>),
    DecodeError,
> {
    match tx {
        TransactionRecord::Raw { account_keys, instructions } => {
            match first_amm_instruction(account_keys@, instructions@, instructions@.len()) {
                Some(i) => decode_accounts(account_keys@, instructions@[i as int].accounts@),
                None => Err(DecodeError::InstructionNotFound),
            }
        },
        TransactionRecord::Unsupported => Err(DecodeError::InstructionNotFound),
    }
}

/// Whether a decoding result is the one that the model gives.
pub open spec fn decoded_as(
    r: Result<PoolInitTxInfos, DecodeError>,
    s: Result<(Seq<u8>, Seq<u8>, Seq<u8>, Seq<u8>), DecodeError>,
) -> bool {
    match r {
        Ok(e) => s == Ok::<_, DecodeError>(e@),
        Err(x) => s == Err::<(Seq<u8>, Seq<u8>, Seq<u8>, Seq<u8>), _>(x),
    }
}

proof fn lemma_first_stable(
    keys: Seq<String>,
    instructions: Seq<InstructionRecord>,
    k: nat,
    m: nat,
)
    requires
        k <= m,
        first_amm_instruction(keys, instructions, k) is Some,
    ensures
        first_amm_instruction(keys, instructions, m) == first_amm_instruction(keys, instructions, k),
    decreases m - k,
{
    if k < m {
        lemma_first_stable(keys, instructions, k, (m - 1) as nat);
    }
}

/// The position of the first instruction that calls the market-making program.
pub fn find_amm_instruction(keys: &Vec<String>, instructions: &Vec<InstructionRecord>) -> (r:
    Option<usize>)
    ensures
        r matches Some(i) ==> i < instructions@.len(),
        match first_amm_instruction(keys@, instructions@, instructions@.len()) {
            Some(i) => r matches Some(k) && k as nat == i,
            None => r is None,
        },
{
    let amm = String::from_str(AMM_V4);
    let mut i: usize = 0;
    while i < instructions.len()
        invariant
            i <= instructions@.len(),
            amm@ == AMM_V4@,
            first_amm_instruction(keys@, instructions@, i as nat) is None,
        decreases instructions@.len() - i,
    {
        let p = instructions[i].program_id_index as usize;
        if p < keys.len() && keys[p] == amm {
            proof {
                assert(first_amm_instruction(keys@, instructions@, (i + 1) as nat) == Some(
                    i as nat,
                ));
                lemma_first_stable(keys@, instructions@, (i + 1) as nat, instructions@.len());
            }
            return Some(i);
        }
        i = i + 1;
    }
    None
}

/// The first decoding step: a notification whose transaction was reverted is
/// rejected, before anything is looked up.
pub fn check_not_reverted(log: &LogNotification) -> (r: Result<(), DecodeError>)
    ensures
        log.reverted ==> r == Err::<(), _>(DecodeError::Reverted),
        !log.reverted ==> r is Ok,
{
    if log.reverted {
        Err(DecodeError::Reverted)
    } else {
        Ok(())
    }
}

/// Parses a notification's signature, the key under which its transaction is
/// fetched; a signature that does not parse cannot be looked up.
pub fn get_transaction_signature(log: &LogNotification) -> (r: Result<Vec<u8>, DecodeError>)
    ensures
        match r {
            Ok(sig) => base58_signature(log.signature@) == Some(sig@),
            Err(e) => e == DecodeError::FetchFailed && base58_signature(log.signature@) is None,
        },
{
    match parse_signature(log.signature.as_str()) {
        Some(sig) => Ok(sig),
        None => Err(DecodeError::FetchFailed),
    }
}

/// Positions in the account keys of the pool id, market id, base mint and
/// quote mint, as the initialisation instruction names them.
pub fn get_useful_account_indexes_from_transaction(tx: &TransactionRecord) -> (r: Result<
    (usize, usize, usize, usize),
    DecodeError,
>)
    ensures
        match tx {
            TransactionRecord::Raw { account_keys, instructions } => match first_amm_instruction(
                account_keys@,
                instructions@,
                instructions@.len(),
            ) {
                Some(i) => {
                    let acc = instructions@[i as int].accounts@;
                    if AMM_ID_INDEX_IN_INIT_INSTRUCTION < acc.len()
                        && MARKET_ID_INDEX_IN_INIT_INSTRUCTION < acc.len()
                        && BASE_MINT_INDEX_IN_INIT_INSTRUCTION < acc.len()
                        && QUOTE_MINT_INDEX_IN_INIT_INSTRUCTION < acc.len() {
                        r == Ok::<_, DecodeError>(
                            (
                                acc[AMM_ID_INDEX_IN_INIT_INSTRUCTION as int] as usize,
                                acc[MARKET_ID_INDEX_IN_INIT_INSTRUCTION as int] as usize,
                                acc[BASE_MINT_INDEX_IN_INIT_INSTRUCTION as int] as usize,
                                acc[QUOTE_MINT_INDEX_IN_INIT_INSTRUCTION as int] as usize,
                            ),
                        )
                    } else {
                        r == Err::<(usize, usize, usize, usize), _>(
                            DecodeError::AccountIndexMissing,
                        )
                    }
                },
                None => r == Err::<(usize, usize, usize, usize), _>(
                    DecodeError::InstructionNotFound,
                ),
            },
            TransactionRecord::Unsupported => r == Err::<(usize, usize, usize, usize), _>(
                DecodeError::InstructionNotFound,
            ),
        },
{
    match tx {
        TransactionRecord::Raw { account_keys, instructions } => {
            match find_amm_instruction(account_keys, instructions) {
                Some(i) => {
                    let acc = &instructions[i].accounts;
                    if AMM_ID_INDEX_IN_INIT_INSTRUCTION < acc.len()
                        && MARKET_ID_INDEX_IN_INIT_INSTRUCTION < acc.len()
                        && BASE_MINT_INDEX_IN_INIT_INSTRUCTION < acc.len()
                        && QUOTE_MINT_INDEX_IN_INIT_INSTRUCTION < acc.len() {
                        Ok(
                            (
                                acc[AMM_ID_INDEX_IN_INIT_INSTRUCTION] as usize,
                                acc[MARKET_ID_INDEX_IN_INIT_INSTRUCTION] as usize,
                                acc[BASE_MINT_INDEX_IN_INIT_INSTRUCTION] as usize,
                                acc[QUOTE_MINT_INDEX_IN_INIT_INSTRUCTION] as usize,
                            ),
                        )
                    } else {
                        Err(DecodeError::AccountIndexMissing)
                    }
                },
                None => Err(DecodeError::InstructionNotFound),
            }
        },
        TransactionRecord::Unsupported => Err(DecodeError::InstructionNotFound),
    }
}

/// Resolves the four positions to account keys, then parses each as an address.
pub fn get_pool_init_tx_infos_from_account_keys_and_indexes(
    account_keys: &Vec<String>,
    indexes: (usize, usize, usize, usize),
) -> (r: Result<PoolInitTxInfos, DecodeError>)
    ensures
        ({
            let (ia, im, ib, iq) = indexes;
            let n = account_keys@.len();
            if ia < n && im < n && ib < n && iq < n {
                let a = base58_pubkey(account_keys@[ia as int]@);
                let m = base58_pubkey(account_keys@[im as int]@);
                let b = base58_pubkey(account_keys@[ib as int]@);
                let q = base58_pubkey(account_keys@[iq as int]@);
                if a is Some && m is Some && b is Some && q is Some {
                    r matches Ok(e) && e@ == (a->0, m->0, b->0, q->0)
                } else {
                    r == Err::<PoolInitTxInfos, _>(DecodeError::InvalidAddress)
                }
            } else {
                r == Err::<PoolInitTxInfos, _>(DecodeError::AccountIndexMissing)
            }
        }),
{
    let (ia, im, ib, iq) = indexes;
    let n = account_keys.len();
    if !(ia < n && im < n && ib < n && iq < n) {
        return Err(DecodeError::AccountIndexMissing);
    }
    let a = parse_address(account_keys[ia].as_str());
    let m = parse_address(account_keys[im].as_str());
    let b = parse_address(account_keys[ib].as_str());
    let q = parse_address(account_keys[iq].as_str());
    match (a, m, b, q) {
        (Some(amm_id), Some(market_id), Some(base_mint), Some(quote_mint)) => Ok(
            PoolInitTxInfos { amm_id, market_id, base_mint, quote_mint },
        ),
        _ => Err(DecodeError::InvalidAddress),
    }
}

/// Decodes a fetched transaction into a pool-initialisation event.
pub fn decode_transaction(tx: &TransactionRecord) -> (r: Result<PoolInitTxInfos, DecodeError>)
    ensures
        decoded_as(r, decode_spec(*tx)),
{
    let indexes = get_useful_account_indexes_from_transaction(tx);
    match indexes {
        Ok(ix) => match tx {
            TransactionRecord::Raw { account_keys, instructions } => {
                get_pool_init_tx_infos_from_account_keys_and_indexes(account_keys, ix)
            },
            TransactionRecord::Unsupported => Err(DecodeError::InstructionNotFound),
        },
        Err(e) => Err(e),
    }
}

/// Decodes the outcome of a lookup: a failed lookup is `FetchFailed`.
pub fn decode_fetched(fetched: &Option<TransactionRecord>) -> (r: Result<
    PoolInitTxInfos,
    DecodeError,
>)
    ensures
        match fetched {
            Some(tx) => decoded_as(r, decode_spec(*tx)),
            None => r == Err::<PoolInitTxInfos, _>(DecodeError::FetchFailed),
        },
{
    match fetched {
        Some(tx) => decode_transaction(tx),
        None => Err(DecodeError::FetchFailed),
    }
}

/// An initialisation instruction whose account list is too short for the
/// highest role position decodes to `AccountIndexMissing`.
pub proof fn law_short_account_list(
    account_keys: Vec<String>,
    instructions: Vec<InstructionRecord>,
    i: nat,
)
    requires
        first_amm_instruction(account_keys@, instructions@, instructions@.len()) == Some(i),
        instructions@[i as int].accounts@.len() <= MARKET_ID_INDEX_IN_INIT_INSTRUCTION,
    ensures
        decode_spec(TransactionRecord::Raw { account_keys, instructions }) == Err::<
            (Seq<u8>, Seq<u8>, Seq<u8>, Seq<u8>),
            _,
        >(DecodeError::AccountIndexMissing),
{
}

} // verus!
