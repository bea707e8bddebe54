use vstd::prelude::*;

use crate::text::upper_hex;

verus! {

/// An account on the ledger: sixteen bytes, compared byte for byte.
#[derive(Clone, Copy, Debug)]
pub struct AccountAddress {
    pub bytes: [u8; 16],
}

impl AccountAddress {
    /// How the address is written in messages: its bytes in upper-case hexadecimal.
    pub open spec fn text(self) -> Seq<char> {
        upper_hex(self.bytes@)
    }

    pub fn new(bytes: [u8; 16]) -> (r: AccountAddress)
        ensures
            r.bytes == bytes,
    {
        AccountAddress { bytes }
    }

    /// The address as it appears in messages.
    pub fn to_text(&self) -> (r: String)
        ensures
            r@ == self.text(),
    {
        display_address(self.bytes)
    }
}

/// Relies on the `Display` impl of diem_types' `AccountAddress` (move-core-types), which
/// writes each of the sixteen bytes as two upper-case hexadecimal digits, in order.
#[verifier::external_body]
fn display_address(bytes: [u8; 16]) -> (r: String)
    ensures
        r@ == upper_hex(bytes@),
{
    diem_types::account_address::AccountAddress::new(bytes).to_string()
}

} // verus!
