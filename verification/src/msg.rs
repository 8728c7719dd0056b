//! The message shapes of the contract: the creation message, the read-only
//! queries with their responses, and the fund transfer handed back to the
//! host's bank.

use vstd::prelude::*;
use crate::state::{PlayerInfo, State, WinnerInfo, WinnerSelection};
use crate::types::Coin;

verus! {

/// The configuration of a new lottery.
#[derive(Clone, Debug, PartialEq, Eq)]
pub struct InstantiateMsg {
    pub name: String,
    pub symobl: String,
    pub unit_price_amount: u128,
    pub unit_price_denom: String,
    pub period: String,
    pub expiration: u64,
    pub selection: WinnerSelection,
    pub max_players: u64,
    pub category: Option<String>,
}

impl InstantiateMsg {
    pub fn new(
        name: &str,
        symobl: &str,
        unit_price_amount: u128,
        unit_price_denom: &str,
        period: &str,
        expiration: u64,
        selection: WinnerSelection,
        max_players: u64,
        category: Option<String>,
    ) -> (r: InstantiateMsg)
        ensures
            r.name@ == name@,
            r.symobl@ == symobl@,
            r.unit_price_amount == unit_price_amount,
            r.unit_price_denom@ == unit_price_denom@,
            r.period@ == period@,
            r.expiration == expiration,
            r.selection == selection,
            r.max_players == max_players,
            r.category == category,
    {
        InstantiateMsg {
            name: name.to_owned(),
            symobl: symobl.to_owned(),
            unit_price_amount,
            unit_price_denom: unit_price_denom.to_owned(),
            period: period.to_owned(),
            expiration,
            selection,
            max_players,
            category,
        }
    }
}

/// The read-only queries of the lottery.
#[derive(Clone, Debug, PartialEq, Eq)]
pub enum QueryMsg {
    Balances {},
    Winner {},
    Owner {},
    CurrentState {},
    PlayInfo { address: String },
}

/// The instance's balance of the configured denomination.
#[derive(Clone, Debug, PartialEq, Eq)]
pub struct BalancesResp {
    pub amount: Coin,
}

/// The recorded winner, empty until drawn.
#[derive(Clone, Debug, PartialEq, Eq)]
pub struct WinnerResp {
    pub winner: Vec<WinnerInfo>,
}

/// The current holder of the owner capability.
#[derive(Clone, Debug, PartialEq, Eq)]
pub struct OwnerResp {
    pub owner: String,
}

/// The full aggregate state.
#[derive(Clone, Debug, PartialEq, Eq)]
pub struct CurrentStateResp {
    pub state: State,
}

/// One address's participant entry, where it has one.
#[derive(Clone, Debug, PartialEq, Eq)]
pub struct PlayInfoResp {
    pub info: Option<PlayerInfo>,
}

/// A fund transfer for the host's bank to execute.
#[derive(Clone, Debug, PartialEq, Eq)]
pub struct BankSend {
    pub to_address: String,
    pub amount: Vec<Coin>,
}

/// One prize tier prepared ahead of the draw.
#[derive(Clone, Debug, PartialEq, Eq)]
pub struct PreparePrize {
    pub prize: Coin,
    pub count: u64,
    pub level: u64,
}

} // verus!
