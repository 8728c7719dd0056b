//! Plain-value models of the host-supplied environment: points in time,
//! native coins, the caller's identity and attached funds, and the per-call
//! block context.

use vstd::prelude::*;

verus! {

/// A point in time, counted in nanoseconds since the Unix epoch.
#[derive(Clone, Copy, Debug, PartialEq, Eq, Structural)]
pub struct Timestamp {
    pub nanos: u64,
}

impl Timestamp {
    /// The whole seconds of this timestamp.
    pub open spec fn spec_seconds(self) -> u64 {
        (self.nanos / 1_000_000_000) as u64
    }

    /// The nanoseconds past the last whole second.
    pub open spec fn spec_subsec_nanos(self) -> u32 {
        (self.nanos % 1_000_000_000) as u32
    }

    pub fn from_nanos(nanos: u64) -> (r: Timestamp)
        ensures
            r.nanos == nanos,
    {
        Timestamp { nanos }
    }

    pub fn from_seconds(secs: u64) -> (r: Timestamp)
        requires
            secs * 1_000_000_000 <= u64::MAX,
        ensures
            r.nanos == secs * 1_000_000_000,
            r.spec_seconds() == secs,
    {
        Timestamp { nanos: secs * 1_000_000_000 }
    }

    pub fn seconds(&self) -> (s: u64)
        ensures
            s == self.spec_seconds(),
    {
        self.nanos / 1_000_000_000
    }

    pub fn subsec_nanos(&self) -> (n: u32)
        ensures
            n == self.spec_subsec_nanos(),
    {
        (self.nanos % 1_000_000_000) as u32
    }
}

/// The characters of an optional string.
pub open spec fn view_opt_string(s: Option<String>) -> Option<Seq<char>> {
    match s {
        Some(t) => Some(t@),
        None => None,
    }
}

/// The mathematical content of a [`Coin`]: its denomination and amount.
#[verifier::ext_equal]
pub struct CoinV {
    pub denom: Seq<char>,
    pub amount: u128,
}

/// An amount of one native token denomination.
#[derive(Clone, Debug, PartialEq, Eq)]
pub struct Coin {
    pub denom: String,
    pub amount: u128,
}

impl View for Coin {
    type V = CoinV;

    open spec fn view(&self) -> CoinV {
        CoinV { denom: self.denom@, amount: self.amount }
    }
}

/// Builds a coin of the given amount and denomination.
pub fn coin(amount: u128, denom: &str) -> (r: Coin)
    ensures
        r@.denom == denom@,
        r@.amount == amount,
{
    Coin { denom: denom.to_owned(), amount }
}

/// A deep copy of a coin.
pub fn clone_coin(c: &Coin) -> (r: Coin)
    ensures
        r@ == c@,
{
    Coin { denom: c.denom.clone(), amount: c.amount }
}

/// The caller of an operation: its address and the funds attached to the call.
#[derive(Clone, Debug, PartialEq, Eq)]
pub struct MessageInfo {
    pub sender: String,
    pub funds: Vec<Coin>,
}

/// The block context the host supplies with each call.
#[derive(Clone, Debug, PartialEq, Eq)]
pub struct Env {
    /// The current block height.
    pub height: u64,
    /// The current block time.
    pub time: Timestamp,
    /// The address of this lottery instance.
    pub contract_address: String,
    /// The position of the current transaction inside its block, where known.
    pub transaction_index: Option<u32>,
}

} // verus!
