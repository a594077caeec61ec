//! The local wallet as the library sees it: a mnemonic phrase and the
//! derived public key in its checksummed text form.
//!
//! Generating, loading and saving the wallet touch entropy and the
//! filesystem and happen outside the library.

use vstd::prelude::*;

verus! {

/// Wallet configuration stored locally.
#[derive(Debug, Clone)]
pub struct WalletConfig {
    /// Mnemonic recovery phrase.
    pub mnemonic: String,
    /// Public key in checksummed SS58 text form.
    pub public_key: String,
}

/// The abbreviated display form of an address: its first eight characters,
/// an ellipsis, and its last six — or the address itself where it is short.
pub open spec fn short_address_of(pk: Seq<char>) -> Seq<char> {
    if pk.len() > 16 {
        pk.take(8) + "..."@ + pk.skip(pk.len() - 6)
    } else {
        pk
    }
}

impl WalletConfig {
    /// The abbreviated display form of this wallet's public key.
    pub fn short_address(&self) -> (r: String)
        ensures
            r@ == short_address_of(self.public_key@),
    {
        let pk = self.public_key.as_str();
        let n = pk.unicode_len();
        if n > 16 {
            let head = pk.substring_char(0, 8);
            let tail = pk.substring_char(n - 6, n);
            let mut s = String::from_str(head);
            s.append("...");
            s.append(tail);
            proof {
                assert(s@ =~= short_address_of(self.public_key@));
            }
            s
        } else {
            self.public_key.clone()
        }
    }
}

} // verus!
