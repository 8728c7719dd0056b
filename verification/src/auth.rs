//! The guard predicates of the state machine: what must hold for a buy, a
//! draw, or an administrative operation to be accepted. Guards are checked
//! in a fixed order, so the reported error is deterministic.

use vstd::prelude::*;
use crate::error::{ContractError, PaymentError};
use crate::ledger::PlayerLedger;
use crate::state::{LotteryCategory, State};
use crate::types::{Coin, Env, MessageInfo};

verus! {

pub type UnitResult = Result<(), ContractError>;

/// Whether the attached funds are exactly one non-zero coin of `denom`.
pub open spec fn spec_payment_ok(funds: Seq<Coin>, denom: Seq<char>) -> bool {
    &&& funds.len() == 1
    &&& funds[0]@.amount != 0
    &&& funds[0]@.denom == denom
}

/// Requires exactly one denomination attached, matching the requested one,
/// with a non-zero amount; returns that amount.
pub fn must_pay(info: &MessageInfo, denom: &str) -> (r: Result<u128, PaymentError>)
    ensures
        match r {
            Ok(amount) => spec_payment_ok(info.funds@, denom@) && amount == info.funds@[0]@.amount,
            Err(e) => {
                &&& !spec_payment_ok(info.funds@, denom@)
                &&& ({
                    let funds = info.funds@;
                    if funds.len() == 0 || (funds.len() == 1 && funds[0]@.amount == 0) {
                        e == (PaymentError::NoFunds {})
                    } else if funds.len() > 1 {
                        e == (PaymentError::MultipleDenoms {})
                    } else {
                        e matches PaymentError::MissingDenom(d) && d@ == denom@
                    }
                })
            },
        },
{
    if info.funds.len() == 0 {
        Err(PaymentError::NoFunds {})
    } else if info.funds.len() > 1 {
        Err(PaymentError::MultipleDenoms {})
    } else if info.funds[0].amount == 0 {
        Err(PaymentError::NoFunds {})
    } else if !str_eq_string(denom, &info.funds[0].denom) {
        Err(PaymentError::MissingDenom(denom.to_owned()))
    } else {
        Ok(info.funds[0].amount)
    }
}

/// Whether a string slice and an owned string hold the same characters.
fn str_eq_string(a: &str, b: &String) -> (r: bool)
    ensures
        r == (a@ == b@),
{
    let ab = a.as_bytes_vec();
    let bb = b.as_str().as_bytes_vec();
    proof {
        vstd::utf8::encode_utf8_decode_utf8(a@);
        vstd::utf8::encode_utf8_decode_utf8(b@);
    }
    byte_vecs_equal(&ab, &bb)
}

fn byte_vecs_equal(a: &Vec<u8>, b: &Vec<u8>) -> (r: bool)
    ensures
        r == (a@ == b@),
{
    if a.len() != b.len() {
        proof {
            assert(a@.len() != b@.len());
        }
        return false;
    }
    let n = a.len();
    let mut i: usize = 0;
    while i < n
        invariant
            0 <= i <= n,
            n == a@.len() == b@.len(),
            forall|j: int| 0 <= j < i ==> a@[j] == b@[j],
        decreases n - i,
    {
        if a[i] != b[i] {
            return false;
        }
        i = i + 1;
    }
    proof {
        assert(a@ =~= b@);
    }
    true
}

/// Only the jackpot selection mode is executable.
pub fn validate_winner_selection(state: &State) -> (r: UnitResult)
    ensures
        match r {
            Ok(()) => state.selection.spec_is_jackpot(),
            Err(e) => {
                &&& !state.selection.spec_is_jackpot()
                &&& e matches ContractError::UnSupportedWinnerSelection { selection } && selection@
                    == state.selection@
            },
        },
{
    if state.selection.is_jackpot() {
        Ok(())
    } else {
        Err(ContractError::UnSupportedWinnerSelection { selection: clone_selection(&state.selection) })
    }
}

/// A deep copy of a selection mode.
pub fn clone_selection(s: &crate::state::WinnerSelection) -> (r: crate::state::WinnerSelection)
    ensures
        r@ == s@,
{
    match s {
        crate::state::WinnerSelection::Jackpot {} => crate::state::WinnerSelection::Jackpot {},
        crate::state::WinnerSelection::Fixed { pct_split, winner_count, max_winner_count } => {
            let mut ps: Vec<u8> = Vec::new();
            let n = pct_split.len();
            let mut i: usize = 0;
            while i < n
                invariant
                    0 <= i <= n,
                    n == pct_split@.len(),
                    ps@ =~= pct_split@.subrange(0, i as int),
                decreases n - i,
            {
                ps.push(pct_split[i]);
                proof {
                    assert(ps@ =~= pct_split@.subrange(0, i + 1));
                }
                i = i + 1;
            }
            proof {
                assert(ps@ =~= pct_split@);
            }
            crate::state::WinnerSelection::Fixed {
                pct_split: ps,
                winner_count: *winner_count,
                max_winner_count: *max_winner_count,
            }
        },
    }
}

/// The payment's denomination must be the configured one.
pub fn validate_denom(state: &State, denom: &str) -> (r: UnitResult)
    ensures
        match r {
            Ok(()) => denom@ == state.unit_price@.denom,
            Err(e) => {
                &&& denom@ != state.unit_price@.denom
                &&& e matches ContractError::UnSupportedDenom { denom: d } && d@ == denom@
            },
        },
{
    if str_eq_string(denom, &state.unit_price.denom) {
        Ok(())
    } else {
        Err(ContractError::UnSupportedDenom { denom: denom.to_owned() })
    }
}

/// The payment must reach the unit price; overpayment is accepted.
pub fn validate_price(state: &State, payment_amount: u128) -> (r: UnitResult)
    ensures
        match r {
            Ok(()) => payment_amount >= state.unit_price@.amount,
            Err(e) => {
                &&& payment_amount < state.unit_price@.amount
                &&& e == (ContractError::PaymentNotEnough { amount: payment_amount })
            },
        },
{
    if payment_amount >= state.unit_price.amount {
        Ok(())
    } else {
        Err(ContractError::PaymentNotEnough { amount: payment_amount })
    }
}

/// The participant cap must not be reached yet.
pub fn validate_player_counter(state: &State, player_counter: u64) -> (r: UnitResult)
    ensures
        match r {
            Ok(()) => player_counter < state.max_players,
            Err(e) => {
                &&& player_counter >= state.max_players
                &&& e == (ContractError::PlayerExceededMaximum { max_players: player_counter })
            },
        },
{
    if player_counter < state.max_players {
        Ok(())
    } else {
        Err(ContractError::PlayerExceededMaximum { max_players: player_counter })
    }
}

/// The buying window must not be past its expiry.
pub fn validate_timestamp(state: &State, env: &Env) -> (r: UnitResult)
    ensures
        match r {
            Ok(()) => env.time.nanos <= state.expiratoin.nanos,
            Err(e) => {
                &&& env.time.nanos > state.expiratoin.nanos
                &&& e == (ContractError::AlreadyExpired {})
            },
        },
{
    if env.time.nanos <= state.expiratoin.nanos {
        Ok(())
    } else {
        Err(ContractError::AlreadyExpired {})
    }
}

/// Operations are only legal at or after the creation block height.
pub fn validate_height(state: &State, env: &Env) -> (r: UnitResult)
    ensures
        match r {
            Ok(()) => env.height >= state.height,
            Err(e) => {
                &&& env.height < state.height
                &&& e == (ContractError::LotteryHeightNotMatch {
                    current_height: env.height,
                    lottery_height: state.height,
                })
            },
        },
{
    if env.height >= state.height {
        Ok(())
    } else {
        Err(ContractError::LotteryHeightNotMatch {
            current_height: env.height,
            lottery_height: state.height,
        })
    }
}

/// No state-changing operation is legal once the lottery is closed.
pub fn validate_status(state: &State) -> (r: UnitResult)
    ensures
        match r {
            Ok(()) => !state.spec_is_closed(),
            Err(e) => state.spec_is_closed() && e == (ContractError::LotteryAlreadyClosed {}),
        },
{
    if !state.is_closed() {
        Ok(())
    } else {
        Err(ContractError::LotteryAlreadyClosed {})
    }
}

/// Only the owner may draw, withdraw, or transfer ownership.
pub fn validate_owner(owner: &String, info: &MessageInfo) -> (r: UnitResult)
    ensures
        match r {
            Ok(()) => owner@ == info.sender@,
            Err(e) => owner@ != info.sender@ && e == (ContractError::Unauthorized {}),
        },
{
    if owner.eq(&info.sender) {
        Ok(())
    } else {
        Err(ContractError::Unauthorized {})
    }
}

/// A draw is legal once the lottery is exhausted: past its expiry, or with
/// the participant cap reached.
pub fn validate_timestamp_or_activing(state: &State, env: &Env, player_counter: u64) -> (r:
    UnitResult)
    ensures
        match r {
            Ok(()) => env.time.nanos >= state.expiratoin.nanos || player_counter
                >= state.max_players,
            Err(e) => {
                &&& env.time.nanos < state.expiratoin.nanos && player_counter < state.max_players
                &&& e == (ContractError::LotteryIsActiving {})
            },
        },
{
    if env.time.nanos >= state.expiratoin.nanos || player_counter >= state.max_players {
        Ok(())
    } else {
        Err(ContractError::LotteryIsActiving {})
    }
}

/// A withdrawal must not exceed the instance's balance.
pub fn validate_balance(balance: &Coin, to_withdraw: u128) -> (r: UnitResult)
    ensures
        match r {
            Ok(()) => balance@.amount >= to_withdraw,
            Err(e) => {
                &&& balance@.amount < to_withdraw
                &&& e matches ContractError::BalanceTooSmall { balance: b } && b@ == balance@
            },
        },
{
    if balance.amount >= to_withdraw {
        Ok(())
    } else {
        Err(ContractError::BalanceTooSmall { balance: crate::types::clone_coin(balance) })
    }
}

/// Each address may buy at most one ticket.
pub fn validate_double_buy(players: &PlayerLedger, sender: &String) -> (r: UnitResult)
    ensures
        match r {
            Ok(()) => !players.spec_contains(sender@),
            Err(e) => {
                &&& players.spec_contains(sender@)
                &&& e matches ContractError::LotteryCanBuyOnce { player } && player@ == sender@
            },
        },
{
    if !players.contains_address(sender) {
        Ok(())
    } else {
        Err(ContractError::LotteryCanBuyOnce { player: sender.clone() })
    }
}

/// The characters the category error reports for a category value.
pub open spec fn spec_category_text(c: LotteryCategory) -> Seq<char> {
    if c == (LotteryCategory::Normal {}) {
        "Normal "@
    } else {
        "SpecifyPrize "@
    }
}

impl LotteryCategory {
    /// The display text of a category.
    pub fn to_text(&self) -> (r: String)
        ensures
            r@ == spec_category_text(*self),
    {
        match self {
            LotteryCategory::Normal {} => "Normal ".to_owned(),
            LotteryCategory::SpecifyPrize {} => "SpecifyPrize ".to_owned(),
        }
    }
}

/// Prizes can only be prepared for a lottery of the prize-list category.
pub fn validate_prepare_category(state: &State) -> (r: UnitResult)
    ensures
        match r {
            Ok(()) => state.category == (LotteryCategory::SpecifyPrize {}),
            Err(e) => {
                &&& state.category != (LotteryCategory::SpecifyPrize {})
                &&& e matches ContractError::InvalidCategory { value } && value@
                    == spec_category_text(state.category)
            },
        },
{
    if state.category == (LotteryCategory::SpecifyPrize {}) {
        Ok(())
    } else {
        Err(ContractError::InvalidCategory { value: state.category.to_text() })
    }
}

/// Whether every buy guard holds: an acceptable payment of the configured
/// denomination reaching the unit price, the jackpot mode, a free slot, an
/// open and unexpired lottery, at or past its creation height.
pub open spec fn spec_buy_allowed(
    state: State,
    funds: Seq<Coin>,
    denom: Seq<char>,
    env: Env,
    player_counter: u64,
) -> bool {
    &&& spec_payment_ok(funds, denom)
    &&& state.selection.spec_is_jackpot()
    &&& denom == state.unit_price@.denom
    &&& funds[0]@.amount >= state.unit_price@.amount
    &&& player_counter < state.max_players
    &&& !state.spec_is_closed()
    &&& env.time.nanos <= state.expiratoin.nanos
    &&& env.height >= state.height
}

/// The error a rejected buy reports, by the first guard that fails.
pub open spec fn spec_buy_err(
    state: State,
    funds: Seq<Coin>,
    denom: Seq<char>,
    env: Env,
    player_counter: u64,
    e: ContractError,
) -> bool {
    if funds.len() == 0 || (funds.len() == 1 && funds[0]@.amount == 0) {
        e == (ContractError::PaymentError(PaymentError::NoFunds {}))
    } else if funds.len() > 1 {
        e == (ContractError::PaymentError(PaymentError::MultipleDenoms {}))
    } else if funds[0]@.denom != denom {
        e matches ContractError::PaymentError(PaymentError::MissingDenom(d)) && d@ == denom
    } else if !state.selection.spec_is_jackpot() {
        e matches ContractError::UnSupportedWinnerSelection { selection } && selection@
            == state.selection@
    } else if denom != state.unit_price@.denom {
        e matches ContractError::UnSupportedDenom { denom: d } && d@ == denom
    } else if funds[0]@.amount < state.unit_price@.amount {
        e == (ContractError::PaymentNotEnough { amount: funds[0]@.amount })
    } else if player_counter >= state.max_players {
        e == (ContractError::PlayerExceededMaximum { max_players: player_counter })
    } else if state.spec_is_closed() {
        e == (ContractError::LotteryAlreadyClosed {})
    } else if env.time.nanos > state.expiratoin.nanos {
        e == (ContractError::AlreadyExpired {})
    } else {
        env.height < state.height && e == (ContractError::LotteryHeightNotMatch {
            current_height: env.height,
            lottery_height: state.height,
        })
    }
}

/// Checks every buy guard, in order: the payment, the selection mode, the
/// denomination, the price, the cap, the status, the expiry, the height.
pub fn validate_buy(
    state: &State,
    info: &MessageInfo,
    denom: &str,
    env: &Env,
    player_counter: u64,
) -> (r: UnitResult)
    ensures
        match r {
            Ok(()) => spec_buy_allowed(*state, info.funds@, denom@, *env, player_counter),
            Err(e) => {
                &&& !spec_buy_allowed(*state, info.funds@, denom@, *env, player_counter)
                &&& spec_buy_err(*state, info.funds@, denom@, *env, player_counter, e)
            },
        },
{
    let amount = match must_pay(info, denom) {
        Ok(amount) => amount,
        Err(e) => {
            return Err(ContractError::PaymentError(e));
        },
    };
    match validate_winner_selection(state) {
        Ok(()) => (),
        Err(e) => {
            return Err(e);
        },
    }
    match validate_denom(state, denom) {
        Ok(()) => (),
        Err(e) => {
            return Err(e);
        },
    }
    match validate_price(state, amount) {
        Ok(()) => (),
        Err(e) => {
            return Err(e);
        },
    }
    match validate_player_counter(state, player_counter) {
        Ok(()) => (),
        Err(e) => {
            return Err(e);
        },
    }
    match validate_status(state) {
        Ok(()) => (),
        Err(e) => {
            return Err(e);
        },
    }
    match validate_timestamp(state, env) {
        Ok(()) => (),
        Err(e) => {
            return Err(e);
        },
    }
    validate_height(state, env)
}

/// Whether every draw guard holds: the owner calls, at or past the creation
/// height, with the lottery exhausted and still open.
pub open spec fn spec_draw_allowed(
    state: State,
    owner: Seq<char>,
    sender: Seq<char>,
    env: Env,
    player_counter: u64,
) -> bool {
    &&& owner == sender
    &&& env.height >= state.height
    &&& (env.time.nanos >= state.expiratoin.nanos || player_counter >= state.max_players)
    &&& !state.spec_is_closed()
}

/// The error a rejected draw reports, by the first guard that fails.
pub open spec fn spec_draw_err(
    state: State,
    owner: Seq<char>,
    sender: Seq<char>,
    env: Env,
    player_counter: u64,
    e: ContractError,
) -> bool {
    if owner != sender {
        e == (ContractError::Unauthorized {})
    } else if env.height < state.height {
        e == (ContractError::LotteryHeightNotMatch {
            current_height: env.height,
            lottery_height: state.height,
        })
    } else if env.time.nanos < state.expiratoin.nanos && player_counter < state.max_players {
        e == (ContractError::LotteryIsActiving {})
    } else {
        state.spec_is_closed() && e == (ContractError::LotteryAlreadyClosed {})
    }
}

/// Checks every draw guard, in order: the caller, the height, the
/// exhaustion of the lottery, the status.
pub fn validate_draw(
    state: &State,
    owner: &String,
    info: &MessageInfo,
    env: &Env,
    player_counter: u64,
) -> (r: UnitResult)
    ensures
        match r {
            Ok(()) => spec_draw_allowed(*state, owner@, info.sender@, *env, player_counter),
            Err(e) => {
                &&& !spec_draw_allowed(*state, owner@, info.sender@, *env, player_counter)
                &&& spec_draw_err(*state, owner@, info.sender@, *env, player_counter, e)
            },
        },
{
    match validate_owner(owner, info) {
        Ok(()) => (),
        Err(e) => {
            return Err(e);
        },
    }
    match validate_height(state, env) {
        Ok(()) => (),
        Err(e) => {
            return Err(e);
        },
    }
    match validate_timestamp_or_activing(state, env, player_counter) {
        Ok(()) => (),
        Err(e) => {
            return Err(e);
        },
    }
    validate_status(state)
}

/// Checks the guards for preparing prizes: the caller, then the category.
pub fn validate_set_prizes(state: &State, owner: &String, info: &MessageInfo) -> (r: UnitResult)
    ensures
        match r {
            Ok(()) => owner@ == info.sender@ && state.category == (LotteryCategory::SpecifyPrize {
            }),
            Err(e) => {
                if owner@ != info.sender@ {
                    e == (ContractError::Unauthorized {})
                } else {
                    state.category != (LotteryCategory::SpecifyPrize {}) && (e
                        matches ContractError::InvalidCategory { value } && value@
                        == spec_category_text(state.category))
                }
            },
        },
{
    match validate_owner(owner, info) {
        Ok(()) => (),
        Err(e) => {
            return Err(e);
        },
    }
    validate_prepare_category(state)
}

} // verus!
