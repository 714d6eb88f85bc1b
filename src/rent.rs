use vstd::prelude::*;

verus! {

/// Bytes that the host ledger charges for on top of an account's data.
pub const ACCOUNT_STORAGE_OVERHEAD: u64 = 128;

/// Lamports per byte and year under the host's default rent.
pub const LAMPORTS_PER_BYTE_YEAR: u64 = 3480;

/// Years of rent an account must hold to be exempt from collection.
pub const EXEMPTION_YEARS: u64 = 2;

/// The largest data region the host ledger lets an account have.
pub const MAX_ACCOUNT_DATA_LEN: usize = 10_485_760;

/// The minimum reserve of an account with `data_len` bytes of data under the
/// host's default rent.
pub open spec fn default_minimum_balance(data_len: nat) -> nat {
    ((ACCOUNT_STORAGE_OVERHEAD + data_len) * LAMPORTS_PER_BYTE_YEAR * EXEMPTION_YEARS) as nat
}

/// Relies on `Rent::default()` and `Rent::minimum_balance` of solana-program
/// (re-exported by anchor-lang): the default rent charges 3480 lamports per
/// byte-year with an exemption threshold of 2.0 years, and `minimum_balance`
/// returns `((128 + data_len) * 3480) as f64 * 2.0` cast back to `u64`, which is
/// exact for every length the host ledger allows.
#[verifier::external_body]
pub(crate) fn minimum_reserve(data_len: usize) -> (r: u64)
    requires
        data_len <= MAX_ACCOUNT_DATA_LEN,
    ensures
        r == default_minimum_balance(data_len as nat),
{
    anchor_lang::solana_program::rent::Rent::default().minimum_balance(data_len)
}

} // verus!
