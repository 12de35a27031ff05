use crate::address::Address;
use vstd::prelude::*;

verus! {

/// Endpoints, signing credential and, for indexing, the store's URL, as the
/// environment supplies them.
#[derive(Clone, Debug)]
pub struct ProgramConfig {
    pub ws_rpc_url: String,
    pub http_rpc_url: String,
    pub buyer_private_key: String,
    pub database_url: Option<String>,
}

/// Lifecycle state of a token account.
#[derive(Clone, Copy, Debug, PartialEq, Eq, Structural)]
pub enum AccountState {
    Uninitialized,
    Initialized,
    Frozen,
}

/// A token account's fields.
#[derive(Clone, Copy, Debug)]
pub struct TokenAccount {
    pub mint: Address,
    pub owner: Address,
    pub amount: u64,
    pub delegate: Option<Address>,
    pub state: AccountState,
    pub is_native: Option<u64>,
    pub delegated_amount: u64,
    pub close_authority: Option<Address>,
}

/// The token accounts of one batched read: all of them when every requested
/// account was found, else nothing.
pub fn collect_token_accounts(requested: usize, fetched: Vec<Option<TokenAccount>>) -> (r: Option<
    Vec<TokenAccount>,
>)
    ensures
        match r {
            Some(v) => fetched@.len() == requested && v@.len() == requested && forall|i: int|
                0 <= i < requested ==> fetched@[i] == Some(#[trigger] v@[i]),
            None => fetched@.len() != requested || exists|i: int|
                0 <= i < fetched@.len() && #[trigger] fetched@[i] is None,
        },
{
    if fetched.len() != requested {
        return None;
    }
    let mut out: Vec<TokenAccount> = Vec::new();
    let mut i: usize = 0;
    while i < fetched.len()
        invariant
            i <= fetched@.len(),
            fetched@.len() == requested,
            out@.len() == i,
            forall|j: int| 0 <= j < i ==> fetched@[j] == Some(#[trigger] out@[j]),
        decreases fetched@.len() - i,
    {
        match fetched[i] {
            Some(a) => out.push(a),
            None => {
                return None;
            },
        }
        i = i + 1;
    }
    Some(out)
}

} // verus!
