//! Keys, wallets and record accounts as the settlement rules see them.
//!
//! The account store itself stays outside: an operation is handed the accounts
//! it works on, with the lamports each holds, and hands them back. What has to
//! leave a wallet that no escrow owns is described by a [`Transfer`], which the
//! account store settles or rejects as a whole.

use anchor_lang::prelude::Pubkey;
use std::str::FromStr;
use vstd::prelude::*;

verus! {

/// The 32-byte key under which the account store keeps an account.
#[derive(Clone, Copy, Debug)]
pub struct Address {
    pub bytes: [u8; 32],
}

impl PartialEq for Address {
    /// Two keys are equal when all 32 bytes agree.
    fn eq(&self, other: &Address) -> (r: bool) {
        let mut i: usize = 0;
        while i < 32
            invariant
                i <= 32,
                forall|j: int| 0 <= j < i ==> self.bytes[j] == other.bytes[j],
            decreases 32 - i,
        {
            if self.bytes[i] != other.bytes[i] {
                return false;
            }
            i += 1;
        }
        assert(self.bytes =~= other.bytes);
        true
    }
}

impl Eq for Address {

}

impl vstd::std_specs::cmp::PartialEqSpecImpl for Address {
    open spec fn obeys_eq_spec() -> bool {
        true
    }

    open spec fn eq_spec(&self, other: &Address) -> bool {
        *self == *other
    }
}

impl Address {
    /// The key made of the given bytes.
    pub fn new(bytes: [u8; 32]) -> (a: Address)
        ensures
            a == (Address { bytes }),
    {
        Address { bytes }
    }
}

/// The key that `Pubkey::from_str` reads from a string in base 58, or `None`
/// where it reads none. `Pubkey` is the key type of `solana_program`, which
/// `anchor_lang` hands on.
pub uninterp spec fn pubkey_from_str(s: Seq<char>) -> Option<Address>;

/// Reads a key written in base 58, with `Pubkey::from_str`.
///
/// Not proved: that the result is what that function returns for the string,
/// with its 32 bytes copied as they are, and `None` where it returns an error.
/// The function refuses a string of more than 44 bytes, decodes the others
/// and accepts what comes out when it is exactly 32 bytes long, so the
/// result depends on the string alone.
#[verifier::external_body]
pub(crate) fn decode_address(s: &str) -> (r: Option<Address>)
    ensures
        r == pubkey_from_str(s@),
{
    match Pubkey::from_str(s) {
        Ok(key) => Some(Address { bytes: key.to_bytes() }),
        Err(_) => None,
    }
}

/// A wallet: an account that holds lamports and no record.
#[derive(Clone, Copy, Debug, PartialEq, Eq)]
pub struct Wallet {
    pub key: Address,
    pub lamports: u64,
}

/// A record account: the record `data` and the lamports kept under its key.
#[derive(Clone, Copy, Debug, PartialEq, Eq)]
pub struct Account<T> {
    pub key: Address,
    pub lamports: u64,
    pub data: T,
}

/// An order to move `lamports` from the wallet `from` to the account `to`.
///
/// An operation that needs lamports from a wallet returns the order instead of
/// touching the wallet; the operation counts as done once the account store
/// has settled it.
#[derive(Clone, Copy, Debug, PartialEq, Eq)]
pub struct Transfer {
    pub from: Address,
    pub to: Address,
    pub lamports: u64,
}

impl Transfer {
    /// Whether the order can be settled on the two balances: the payer holds
    /// the amount and the receiver's balance can take it.
    pub open spec fn payable(self, from_lamports: u64, to_lamports: u64) -> bool {
        self.lamports <= from_lamports && to_lamports + self.lamports <= u64::MAX
    }

    /// What the payer holds once the order is settled.
    pub open spec fn debited(self, from_lamports: u64) -> int {
        from_lamports - self.lamports
    }

    /// What the receiver holds once the order is settled.
    pub open spec fn credited(self, to_lamports: u64) -> int {
        to_lamports + self.lamports
    }

    /// Settles the order on the balances of its two accounts, all or nothing.
    ///
    /// Returns whether it was settled; when it was not, both balances are as
    /// they were.
    pub fn settle(&self, from_lamports: &mut u64, to_lamports: &mut u64) -> (done: bool)
        ensures
            done == self.payable(*old(from_lamports), *old(to_lamports)),
            done ==> *final(from_lamports) == self.debited(*old(from_lamports)),
            done ==> *final(to_lamports) == self.credited(*old(to_lamports)),
            !done ==> *final(from_lamports) == *old(from_lamports),
            !done ==> *final(to_lamports) == *old(to_lamports),
    {
        if self.lamports > *from_lamports {
            return false;
        }
        match to_lamports.checked_add(self.lamports) {
            Some(credited) => {
                *from_lamports = *from_lamports - self.lamports;
                *to_lamports = credited;
                true
            },
            None => false,
        }
    }
}

} // verus!
