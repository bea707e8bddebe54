use vstd::prelude::*;

use crate::address::AccountAddress;
use crate::hash::{decode_hash_list, decode_list, hash_seqs, TxnHash};
use crate::text::{decimal, decimal_string};

verus! {

/// Why funding an account failed.
#[derive(Debug)]
pub enum FundError {
    /// The faucet could not be reached; the transport's own words.
    NetworkError(String),
    /// The faucet answered with a status other than success.
    FaucetRejected(u16),
    /// The faucet's reply is not a list of transaction hashes.
    MalformedResponse,
    /// The ledger rejected this transaction.
    TransactionRejected(TxnHash),
    /// The deadline passed while these transactions were still pending.
    ConfirmationTimeout(Vec<TxnHash>),
}

/// The HTTP status with which the faucet reports success.
pub const FAUCET_OK: u16 = 200;

/// Path and query of the faucet request that asks for `amount` for `account`.
pub open spec fn mint_text(amount: u64, account: AccountAddress) -> Seq<char> {
    "mint?amount="@ + decimal(amount as nat) + "&auth_key="@ + account.text()
}

/// The path and query, relative to the faucet's URL, of the request that asks for
/// `amount` to be granted to `account`.
pub fn mint_path(amount: u64, account: &AccountAddress) -> (r: String)
    ensures
        r@ == mint_text(amount, *account),
{
    let mut s = String::from_str("mint?amount=");
    let n = decimal_string(amount);
    s.append(n.as_str());
    s.append("&auth_key=");
    let a = account.to_text();
    s.append(a.as_str());
    s
}

/// Reads the faucet's answer: the hashes it lists when `status` is success, else the
/// rejection or the malformed reply.
pub fn faucet_reply(status: u16, body: &[u8]) -> (r: Result<Vec<TxnHash>, FundError>)
    ensures
        status != FAUCET_OK ==> (r matches Err(FundError::FaucetRejected(s)) && s == status),
        status == FAUCET_OK && decode_list(body@) is None ==> r matches Err(
            FundError::MalformedResponse,
        ),
        status == FAUCET_OK && decode_list(body@) is Some ==> (r matches Ok(hs) && hash_seqs(hs@)
            == decode_list(body@)->0),
{
    if status != FAUCET_OK {
        return Err(FundError::FaucetRejected(status));
    }
    match decode_hash_list(body) {
        Some(hs) => Ok(hs),
        None => Err(FundError::MalformedResponse),
    }
}

} // verus!
