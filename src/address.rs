use solana_sdk::pubkey::Pubkey;
use solana_sdk::signature::Signature;
use vstd::prelude::*;

verus! {

/// What `Pubkey::from_str` decodes from a base58 text: 32 bytes, or nothing.
pub uninterp spec fn base58_pubkey(text: Seq<char>) -> Option<Seq<u8>>;

/// The base58 text that `Pubkey`'s `Display` writes for 32 bytes.
pub uninterp spec fn base58_text(bytes: Seq<u8>) -> Seq<char>;

/// What `Signature::from_str` decodes from a base58 text: 64 bytes, or nothing.
pub uninterp spec fn base58_signature(text: Seq<char>) -> Option<Seq<u8>>;

/// What `Pubkey::create_program_address` derives from seeds and a program id.
pub uninterp spec fn program_address(seeds: Seq<Seq<u8>>, program: Seq<u8>) -> Option<Seq<u8>>;

/// The program address for the highest bump seed in `1..=bump` that, added
/// as a last one-byte seed, gives one; nothing if none does.
pub open spec fn found_from_bump(seeds: Seq<Seq<u8>>, program: Seq<u8>, bump: nat) -> Option<
    Seq<u8>,
>
    decreases bump,
{
    if bump == 0 {
        None
    } else if program_address(seeds.push(seq![bump as u8]), program) is Some {
        program_address(seeds.push(seq![bump as u8]), program)
    } else {
        found_from_bump(seeds, program, (bump - 1) as nat)
    }
}

/// What `Pubkey::try_find_program_address` finds for seeds and a program id:
/// the address for the highest bump seed, 255 down to 1, that gives one.
pub open spec fn found_program_address(seeds: Seq<Seq<u8>>, program: Seq<u8>) -> Option<Seq<u8>> {
    found_from_bump(seeds, program, 255)
}

/// A 32-byte ledger address.
#[derive(Clone, Copy, Debug)]
pub struct Address {
    pub bytes: [u8; 32],
}

impl View for Address {
    type V = Seq<u8>;

    open spec fn view(&self) -> Seq<u8> {
        self.bytes@
    }
}

/// Relies on `Pubkey::from_str` (solana-program): a text of at most 44 bytes
/// whose base58 decoding is 32 bytes gives those bytes; any other is refused.
/// The result depends on the text alone.
#[verifier::external_body]
fn decode_pubkey(text: &str) -> (r: Option<Address>)
    ensures
        match r {
            Some(a) => base58_pubkey(text@) == Some(a@),
            None => base58_pubkey(text@) is None,
        },
{
    match <Pubkey as std::str::FromStr>::from_str(text) {
        Ok(key) => Some(Address { bytes: key.to_bytes() }),
        Err(_) => None,
    }
}

/// Relies on `Display for Pubkey` (solana-program): the base58 encoding of the
/// bytes, which depends on the bytes alone.
#[verifier::external_body]
fn encode_pubkey(a: &Address) -> (r: String)
    ensures
        r@ == base58_text(a@),
{
    Pubkey::new_from_array(a.bytes).to_string()
}

/// Relies on `Signature::from_str` (solana-sdk): a text of at most 88 bytes
/// whose base58 decoding is 64 bytes gives those bytes; any other is refused.
/// The result depends on the text alone.
#[verifier::external_body]
fn decode_signature(text: &str) -> (r: Option<Vec<u8>>)
    ensures
        match r {
            Some(b) => base58_signature(text@) == Some(b@),
            None => base58_signature(text@) is None,
        },
{
    match <Signature as std::str::FromStr>::from_str(text) {
        Ok(sig) => Some(sig.as_ref().to_vec()),
        Err(_) => None,
    }
}

/// Relies on `Pubkey::create_program_address` (solana-program): the address
/// hashed from the seeds and program id, or an error when the seeds are too
/// many or too long or the hash lies on the curve; a function of its arguments.
#[verifier::external_body]
fn derive_program_address(seeds: &Vec<Vec<u8>>, program: &Address) -> (r: Option<Address>)
    ensures
        match r {
            Some(a) => program_address(seeds@.map_values(|s: Vec<u8>| s@), program@) == Some(a@),
            None => program_address(seeds@.map_values(|s: Vec<u8>| s@), program@) is None,
        },
{
    let parts: Vec<&[u8]> = seeds.iter().map(|s| s.as_slice()).collect();
    Pubkey::create_program_address(&parts, &Pubkey::new_from_array(program.bytes)).ok().map(
        |key| Address { bytes: key.to_bytes() },
    )
}

/// Relies on `Pubkey::try_find_program_address` (solana-program): it tries
/// the bump seeds 255 down to 1, each appended as a last one-byte seed, and
/// returns the first address `create_program_address` gives; any error other
/// than an on-curve hash ends the search with nothing, and such errors (too
/// many or too long seeds) come for every bump alike. The bump is dropped.
#[verifier::external_body]
fn find_program_address(seeds: &Vec<Vec<u8>>, program: &Address) -> (r: Option<Address>)
    ensures
        match r {
            Some(a) => found_program_address(seeds@.map_values(|s: Vec<u8>| s@), program@) == Some(
                a@,
            ),
            None => found_program_address(seeds@.map_values(|s: Vec<u8>| s@), program@) is None,
        },
{
    let parts: Vec<&[u8]> = seeds.iter().map(|s| s.as_slice()).collect();
    Pubkey::try_find_program_address(&parts, &Pubkey::new_from_array(program.bytes)).map(
        |(key, _)| Address { bytes: key.to_bytes() },
    )
}

/// Parses a base58 address text.
pub fn parse_address(text: &str) -> (r: Option<Address>)
    ensures
        match r {
            Some(a) => base58_pubkey(text@) == Some(a@),
            None => base58_pubkey(text@) is None,
        },
{
    decode_pubkey(text)
}

/// The base58 text of an address.
pub fn address_to_string(a: &Address) -> (r: String)
    ensures
        r@ == base58_text(a@),
{
    encode_pubkey(a)
}

/// Parses a base58 transaction signature into its 64 bytes.
pub fn parse_signature(text: &str) -> (r: Option<Vec<u8>>)
    ensures
        match r {
            Some(b) => base58_signature(text@) == Some(b@),
            None => base58_signature(text@) is None,
        },
{
    decode_signature(text)
}

/// Byte-wise equality of two addresses.
pub fn same_address(a: &Address, b: &Address) -> (r: bool)
    ensures
        r == (a@ == b@),
{
    let mut i: usize = 0;
    while i < 32
        invariant
            0 <= i <= 32,
            a@.len() == 32,
            b@.len() == 32,
            forall|j: int| 0 <= j < i ==> a@[j] == b@[j],
        decreases 32 - i,
    {
        if a.bytes[i] != b.bytes[i] {
            return false;
        }
        i = i + 1;
    }
    assert(a@ =~= b@);
    true
}

/// The bytes of an address, as a vector.
pub fn address_bytes(a: &Address) -> (r: Vec<u8>)
    ensures
        r@ == a@,
{
    let mut out: Vec<u8> = Vec::new();
    let mut i: usize = 0;
    while i < 32
        invariant
            0 <= i <= 32,
            a@.len() == 32,
            out@ == a@.subrange(0, i as int),
        decreases 32 - i,
    {
        out.push(a.bytes[i]);
        i = i + 1;
        assert(out@ =~= a@.subrange(0, i as int));
    }
    assert(a@.subrange(0, 32) =~= a@);
    out
}

/// The seeds of the market authority candidate for one nonce: the market
/// address, the nonce, and seven zero bytes.
pub open spec fn authority_seeds(market: Seq<u8>, nonce: u8) -> Seq<Seq<u8>> {
    seq![market, seq![nonce], seq![0u8, 0u8, 0u8, 0u8, 0u8, 0u8, 0u8]]
}

/// The first nonce below `bound` whose seeds give a program address.
pub open spec fn first_authority_nonce(market: Seq<u8>, program: Seq<u8>, bound: nat) -> Option<
    nat,
>
    decreases bound,
{
    if bound == 0 {
        None
    } else {
        match first_authority_nonce(market, program, (bound - 1) as nat) {
            Some(n) => Some(n),
            None => if program_address(authority_seeds(market, (bound - 1) as u8), program) is Some {
                Some((bound - 1) as nat)
            } else {
                None
            },
        }
    }
}

proof fn lemma_first_nonce_stable(market: Seq<u8>, program: Seq<u8>, k: nat, m: nat)
    requires
        k <= m,
        first_authority_nonce(market, program, k) is Some,
    ensures
        first_authority_nonce(market, program, m) == first_authority_nonce(market, program, k),
    decreases m - k,
{
    if k < m {
        lemma_first_nonce_stable(market, program, k, (m - 1) as nat);
    }
}

/// The number of nonces tried for a market authority.
pub const AUTHORITY_NONCES: u8 = 100;

/// The market's vault-signer authority: the program address of the first
/// nonce in `0..100` for which one exists.
pub fn get_associated_authority(program_id: &Address, market_id: &Address) -> (r: Option<Address>)
    ensures
        match first_authority_nonce(market_id@, program_id@, AUTHORITY_NONCES as nat) {
            Some(n) => r matches Some(a) && program_address(
                authority_seeds(market_id@, n as u8),
                program_id@,
            ) == Some(a@),
            None => r is None,
        },
{
    let mut nonce: u8 = 0;
    while nonce < AUTHORITY_NONCES
        invariant
            nonce <= AUTHORITY_NONCES,
            first_authority_nonce(market_id@, program_id@, nonce as nat) is None,
        decreases AUTHORITY_NONCES - nonce,
    {
        let mut seeds: Vec<Vec<u8>> = Vec::new();
        seeds.push(address_bytes(market_id));
        seeds.push(vec![nonce]);
        seeds.push(vec![0u8, 0u8, 0u8, 0u8, 0u8, 0u8, 0u8]);
        let found = derive_program_address(&seeds, program_id);
        proof {
            let v = seeds@.map_values(|s: Vec<u8>| s@);
            assert(v[1] =~= seq![nonce]);
            assert(v[2] =~= seq![0u8, 0u8, 0u8, 0u8, 0u8, 0u8, 0u8]);
            assert(v =~= authority_seeds(market_id@, nonce));
        }
        if let Some(a) = found {
            proof {
                assert(first_authority_nonce(market_id@, program_id@, (nonce + 1) as nat) == Some(
                    nonce as nat,
                ));
                lemma_first_nonce_stable(
                    market_id@,
                    program_id@,
                    (nonce + 1) as nat,
                    AUTHORITY_NONCES as nat,
                );
            }
            return Some(a);
        }
        nonce = nonce + 1;
    }
    None
}

/// The fixed seed that, with the program and market ids, derives a pool id.
pub open spec fn amm_associated_seed() -> Seq<u8> {
    seq![
        97u8, 109u8, 109u8, 95u8, 97u8, 115u8, 115u8, 111u8, 99u8, 105u8, 97u8, 116u8, 101u8,
        100u8, 95u8, 115u8, 101u8, 101u8, 100u8,
    ]
}

/// The pool id that the market-making program associates with a market: the
/// program address found for the seeds (program id, market id,
/// `amm_associated_seed`).
pub fn amm_associated_id(program_id: &Address, market_id: &Address) -> (r: Option<Address>)
    ensures
        match found_program_address(
            seq![program_id@, market_id@, amm_associated_seed()],
            program_id@,
        ) {
            Some(a) => r matches Some(x) && x@ == a,
            None => r is None,
        },
{
    let mut seeds: Vec<Vec<u8>> = Vec::new();
    seeds.push(address_bytes(program_id));
    seeds.push(address_bytes(market_id));
    seeds.push(
        vec![
            97u8, 109u8, 109u8, 95u8, 97u8, 115u8, 115u8, 111u8, 99u8, 105u8, 97u8, 116u8, 101u8,
            100u8, 95u8, 115u8, 101u8, 101u8, 100u8,
        ],
    );
    proof {
        let v = seeds@.map_values(|s: Vec<u8>| s@);
        assert(v[2] =~= amm_associated_seed());
        assert(v =~= seq![program_id@, market_id@, amm_associated_seed()]);
    }
    find_program_address(&seeds, program_id)
}

} // verus!
