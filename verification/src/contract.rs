//! The lottery instance and its operations: creation, buying a ticket,
//! drawing the winner, claiming, ownership transfer, withdrawal, and the
//! read-only queries. Every operation either applies in full or returns an
//! error and leaves the instance exactly as it was.

use vstd::prelude::*;
use crate::auth::{
    clone_selection, spec_buy_allowed, spec_buy_err, spec_draw_allowed, spec_draw_err,
    spec_payment_ok, validate_balance, validate_buy, validate_draw, validate_owner,
};
use crate::decimal::{dec_digits, u64_to_string};
use crate::error::ContractError;
use crate::hash::{hash64_of, hash_to_u64, spec_finalize, spec_init, spec_update};
use crate::ledger::PlayerLedger;
use crate::msg::{BankSend, CurrentStateResp, InstantiateMsg, OwnerResp, PlayInfoResp, WinnerResp};
use crate::state::{
    metadata_empty, view_winners, GameStatus, LotteryCategory, LotteryPeriod, Metadata, PlayerInfo,
    PlayerInfoV, State, StateV, Trait, WinnerInfo, WinnerInfoV,
};
use crate::types::{clone_coin, view_opt_string, Coin, CoinV, Env, MessageInfo, Timestamp};

verus! {

/// One lottery instance: the owner capability, the aggregate state, the
/// running ticket counter, and the participant ledger.
#[derive(Clone, Debug, PartialEq, Eq)]
pub struct Lottery {
    pub owner: String,
    pub state: State,
    pub player_counter: u64,
    pub players: PlayerLedger,
}

impl Lottery {
    /// The invariant every operation preserves: the ledger is well formed
    /// and as long as both counters; the cap holds; only the jackpot mode
    /// exists; and a winner is recorded exactly when a draw closed a
    /// non-empty lottery.
    pub open spec fn wf(self) -> bool {
        &&& self.players.wf()
        &&& self.player_counter == self.players@.len()
        &&& self.state.player_count == self.player_counter
        &&& self.state.player_count <= self.state.max_players
        &&& self.state.selection.spec_is_jackpot()
        &&& (self.state@.winner.len() > 0 <==> self.state.spec_is_closed() && self.state.player_count
            > 0)
        &&& self.state@.winner.len() <= 1
    }
}

/// A deep copy of an optional memo.
pub fn clone_opt_string(s: &Option<String>) -> (r: Option<String>)
    ensures
        view_opt_string(r) == view_opt_string(*s),
{
    match s {
        Some(x) => Some(x.clone()),
        None => None,
    }
}

/// A deep copy of a participant entry.
pub fn clone_player(p: &PlayerInfo) -> (r: PlayerInfo)
    ensures
        r@ == p@,
{
    let r = PlayerInfo {
        player_addr: p.player_addr.clone(),
        lottery_addr: p.lottery_addr.clone(),
        buy_at: p.buy_at,
        height: p.height,
        ticket_id: p.ticket_id.clone(),
        memo: clone_opt_string(&p.memo),
    };
    proof {
        assert(r@ =~= p@);
    }
    r
}

/// A deep copy of a winner record.
pub fn clone_winner(w: &WinnerInfo) -> (r: WinnerInfo)
    ensures
        r@ == w@,
{
    let mut prize: Vec<Coin> = Vec::new();
    let n = w.prize.len();
    let mut i: usize = 0;
    while i < n
        invariant
            0 <= i <= n,
            n == w.prize@.len(),
            prize@.len() == i,
            forall|j: int| 0 <= j < i ==> (#[trigger] prize@[j])@ == w.prize@[j]@,
        decreases n - i,
    {
        prize.push(clone_coin(&w.prize[i]));
        i = i + 1;
    }
    let r = WinnerInfo {
        address: w.address.clone(),
        prize,
        ticket_id: w.ticket_id.clone(),
    };
    proof {
        assert(r@ =~= w@);
    }
    r
}

/// A deep copy of a winner list.
pub fn clone_winners(v: &Vec<WinnerInfo>) -> (r: Vec<WinnerInfo>)
    ensures
        view_winners(r) == view_winners(*v),
{
    let mut out: Vec<WinnerInfo> = Vec::new();
    let n = v.len();
    let mut i: usize = 0;
    while i < n
        invariant
            0 <= i <= n,
            n == v@.len(),
            out@.len() == i,
            forall|j: int| 0 <= j < i ==> (#[trigger] out@[j])@ == v@[j]@,
        decreases n - i,
    {
        out.push(clone_winner(&v[i]));
        i = i + 1;
    }
    proof {
        assert(view_winners(out) =~= view_winners(*v));
    }
    out
}

/// A deep copy of a metadata attribute.
pub fn clone_trait(t: &Trait) -> (r: Trait)
    ensures
        r@ == t@,
{
    let r = Trait {
        display_type: clone_opt_string(&t.display_type),
        trait_type: t.trait_type.clone(),
        value: t.value.clone(),
    };
    proof {
        assert(r@ =~= t@);
    }
    r
}

/// A deep copy of a metadata record.
pub fn clone_metadata(m: &Metadata) -> (r: Metadata)
    ensures
        r@ == m@,
{
    let attributes = match &m.attributes {
        Some(v) => {
            let mut out: Vec<Trait> = Vec::new();
            let n = v.len();
            let mut i: usize = 0;
            while i < n
                invariant
                    0 <= i <= n,
                    n == v@.len(),
                    out@.len() == i,
                    forall|j: int| 0 <= j < i ==> (#[trigger] out@[j])@ == v@[j]@,
                decreases n - i,
            {
                out.push(clone_trait(&v[i]));
                i = i + 1;
            }
            Some(out)
        },
        None => None,
    };
    let r = Metadata {
        image: clone_opt_string(&m.image),
        image_data: clone_opt_string(&m.image_data),
        external_url: clone_opt_string(&m.external_url),
        description: clone_opt_string(&m.description),
        name: clone_opt_string(&m.name),
        attributes,
        background_color: clone_opt_string(&m.background_color),
        animation_url: clone_opt_string(&m.animation_url),
        youtube_url: clone_opt_string(&m.youtube_url),
    };
    proof {
        assert(r@ =~= m@);
    }
    r
}

/// A deep copy of the aggregate state.
pub fn clone_state(s: &State) -> (r: State)
    ensures
        r@ == s@,
{
    let r = State {
        name: s.name.clone(),
        symbol: s.symbol.clone(),
        height: s.height,
        created_at: s.created_at,
        expiratoin: s.expiratoin,
        unit_price: clone_coin(&s.unit_price),
        period: s.period,
        selection: clone_selection(&s.selection),
        player_count: s.player_count,
        max_players: s.max_players,
        status: s.status,
        seed: s.seed.clone(),
        winner: clone_winners(&s.winner),
        category: s.category,
        extension: clone_metadata(&s.extension),
    };
    proof {
        assert(r@ =~= s@);
    }
    r
}

/// Creates a lottery: validates the configuration, computes the initial
/// seed from the instance identity and the creation height, and starts the
/// game open and empty under the creator's ownership.
pub fn instantiate(env: &Env, info: &MessageInfo, msg: &InstantiateMsg) -> (r: Result<
    Lottery,
    ContractError,
>)
    requires
        msg.expiration * 1_000_000_000 <= u64::MAX,
    ensures
        match r {
            Ok(lot) => {
                &&& msg.unit_price_amount != 0
                &&& msg.selection.spec_is_jackpot()
                &&& LotteryPeriod::spec_parse(msg.period@) is Some
                &&& env.time.spec_seconds() <= msg.expiration
                &&& lot.wf()
                &&& lot.owner@ == info.sender@
                &&& lot.player_counter == 0
                &&& lot.players@ == Seq::<PlayerInfoV>::empty()
                &&& lot.state.name@ == msg.name@
                &&& lot.state.symbol@ == msg.symobl@
                &&& lot.state.height == env.height
                &&& lot.state.created_at == env.time
                &&& lot.state.expiratoin.nanos == msg.expiration * 1_000_000_000
                &&& lot.state.unit_price@ == (CoinV {
                    denom: msg.unit_price_denom@,
                    amount: msg.unit_price_amount,
                })
                &&& Some(lot.state.period) == LotteryPeriod::spec_parse(msg.period@)
                &&& lot.state.selection@ == msg.selection@
                &&& lot.state.player_count == 0
                &&& lot.state.max_players == msg.max_players
                &&& lot.state.status == GameStatus::Activing
                &&& lot.state.seed@ == spec_init(env.contract_address@, env.height)
                &&& lot.state@.winner == Seq::<WinnerInfoV>::empty()
                &&& lot.state.category == (LotteryCategory::Normal {})
                &&& lot.state@.extension == metadata_empty()
            },
            Err(e) => {
                if msg.unit_price_amount == 0 {
                    e == (ContractError::InvalidUnitPrice { value: msg.unit_price_amount })
                } else if !msg.selection.spec_is_jackpot() {
                    e matches ContractError::UnSupportedWinnerSelection { selection } && selection@
                        == msg.selection@
                } else if LotteryPeriod::spec_parse(msg.period@) is None {
                    e matches ContractError::InvalidLottoryPeriod { value } && value@ == msg.period@
                } else {
                    env.time.spec_seconds() > msg.expiration && e
                        == (ContractError::InstantiateExpirationInvalid {
                        expiration_secs: msg.expiration,
                        created_at: env.time.spec_seconds(),
                    })
                }
            },
        },
{
    if msg.unit_price_amount == 0 {
        return Err(ContractError::InvalidUnitPrice { value: msg.unit_price_amount });
    }
    if !msg.selection.is_jackpot() {
        return Err(ContractError::UnSupportedWinnerSelection {
            selection: clone_selection(&msg.selection),
        });
    }
    let period = match LotteryPeriod::parse(msg.period.as_str()) {
        Ok(p) => p,
        Err(e) => {
            return Err(e);
        },
    };
    let created_at = env.time;
    if created_at.seconds() > msg.expiration {
        return Err(ContractError::InstantiateExpirationInvalid {
            expiration_secs: msg.expiration,
            created_at: created_at.seconds(),
        });
    }
    let seed = crate::hash::init(env.contract_address.as_str(), env.height);
    let state = State {
        name: msg.name.clone(),
        symbol: msg.symobl.clone(),
        height: env.height,
        created_at,
        expiratoin: Timestamp::from_seconds(msg.expiration),
        unit_price: Coin { denom: msg.unit_price_denom.clone(), amount: msg.unit_price_amount },
        period,
        selection: clone_selection(&msg.selection),
        player_count: 0,
        max_players: msg.max_players,
        status: GameStatus::Activing,
        seed,
        winner: Vec::new(),
        category: LotteryCategory::Normal {},
        extension: Metadata::default(),
    };
    let lot = Lottery {
        owner: info.sender.clone(),
        state,
        player_counter: 0,
        players: PlayerLedger::new(),
    };
    proof {
        assert(lot.state@.winner =~= Seq::<WinnerInfoV>::empty());
        assert(lot.players@ =~= Seq::<PlayerInfoV>::empty());
    }
    Ok(lot)
}

/// The participant entry one successful buy appends.
pub open spec fn spec_buy_entry(
    pre: Lottery,
    env: Env,
    sender: Seq<char>,
    memo: Option<Seq<char>>,
) -> PlayerInfoV {
    PlayerInfoV {
        player_addr: sender,
        lottery_addr: env.contract_address@,
        buy_at: env.height,
        height: env.height,
        ticket_id: dec_digits((pre.player_counter + 1) as nat),
        memo,
    }
}

/// Everything a buy call does: its result and the state it leaves behind.
/// A rejected buy reports the first failing guard and changes nothing; an
/// accepted one folds the buyer into the seed, appends the entry with the
/// next ticket index, and steps both counters.
pub open spec fn spec_buy_post(
    pre: Lottery,
    env: Env,
    info: MessageInfo,
    denom: Seq<char>,
    memo: Option<Seq<char>>,
    r: Result<(), ContractError>,
    post: Lottery,
) -> bool {
    if !spec_buy_allowed(pre.state, info.funds@, denom, env, pre.player_counter) {
        &&& (r matches Err(e) && spec_buy_err(
            pre.state,
            info.funds@,
            denom,
            env,
            pre.player_counter,
            e,
        ))
        &&& post == pre
    } else if pre.players.spec_contains(info.sender@) {
        &&& (r matches Err(ContractError::LotteryCanBuyOnce { player }) && player@ == info.sender@)
        &&& post == pre
    } else {
        &&& r == Ok::<(), ContractError>(())
        &&& post.owner == pre.owner
        &&& post.player_counter == pre.player_counter + 1
        &&& post.players@ == pre.players@.push(spec_buy_entry(pre, env, info.sender@, memo))
        &&& post.state@ == (StateV {
            seed: spec_update(
                pre.state.seed@,
                info.sender@,
                (pre.player_counter + 1) as u64,
                env.height,
                memo,
            ),
            player_count: (pre.state.player_count + 1) as u64,
            ..pre.state@
        })
    }
}

impl Lottery {
    /// Sells one ticket: checks every buy guard in order, then folds the
    /// buyer into the seed and records the entry under the next index.
    pub fn buy_ticket(&mut self, env: &Env, info: &MessageInfo, denom: &str, memo: Option<String>)
        -> (r: Result<(), ContractError>)
        requires
            old(self).wf(),
        ensures
            final(self).wf(),
            spec_buy_post(
                *old(self),
                *env,
                *info,
                denom@,
                view_opt_string(memo),
                r,
                *final(self),
            ),
    {
        match validate_buy(&self.state, info, denom, env, self.player_counter) {
            Ok(()) => (),
            Err(e) => {
                return Err(e);
            },
        }
        if self.players.contains_address(&info.sender) {
            return Err(ContractError::LotteryCanBuyOnce { player: info.sender.clone() });
        }
        self.update_state_with_buy(env, &info.sender, memo);
        Ok(())
    }

    /// The side effects of an accepted buy: the seed folds in the buyer and
    /// the new index, the counters step, and the ledger grows by one entry.
    fn update_state_with_buy(&mut self, env: &Env, sender: &String, memo: Option<String>)
        requires
            old(self).wf(),
            old(self).player_counter < old(self).state.max_players,
            !old(self).state.spec_is_closed(),
            !old(self).players.spec_contains(sender@),
        ensures
            final(self).wf(),
            final(self).owner == old(self).owner,
            final(self).player_counter == old(self).player_counter + 1,
            final(self).players@ == old(self).players@.push(
                spec_buy_entry(*old(self), *env, sender@, view_opt_string(memo)),
            ),
            final(self).state@ == (StateV {
                seed: spec_update(
                    old(self).state.seed@,
                    sender@,
                    (old(self).player_counter + 1) as u64,
                    env.height,
                    view_opt_string(memo),
                ),
                player_count: (old(self).state.player_count + 1) as u64,
                ..old(self).state@
            }),
    {
        let next = self.player_counter + 1;
        let new_seed = crate::hash::update(
            self.state.seed.as_str(),
            sender.as_str(),
            next,
            env.height,
            &memo,
        );
        self.state.seed = new_seed;
        self.state.player_count = self.state.player_count + 1;
        let ticket_id = u64_to_string(next);
        let entry = PlayerInfo {
            player_addr: sender.clone(),
            lottery_addr: env.contract_address.clone(),
            buy_at: env.height,
            height: env.height,
            ticket_id,
            memo,
        };
        self.players.append(entry);
        self.player_counter = next;
        proof {
            assert(final(self).state@ =~~= (StateV {
                seed: spec_update(
                    old(self).state.seed@,
                    sender@,
                    (old(self).player_counter + 1) as u64,
                    env.height,
                    view_opt_string(memo),
                ),
                player_count: (old(self).state.player_count + 1) as u64,
                ..old(self).state@
            }));
        }
    }
}

/// The 1-based ticket index the selection picks from a sealed seed: the
/// sole ticket for a single participant, otherwise the 64-bit hash of the
/// seed reduced modulo the participant count, plus one.
pub open spec fn spec_winner_index(seed: Seq<char>, count: u64) -> int
    recommends
        count >= 1,
{
    if count == 1 {
        1
    } else {
        (hash64_of(seed) % count) as int + 1
    }
}

/// Picks the winning entries from the sealed seed: none from an empty
/// lottery, the sole participant unconditionally from a lottery of one,
/// otherwise the holder of the drawn ticket index.
pub fn choose_winner_infos(state: &State, players: &PlayerLedger, player_counter: u64) -> (r:
    Result<Vec<PlayerInfo>, ContractError>)
    requires
        players.wf(),
        state.player_count == players@.len(),
        player_counter == state.player_count,
    ensures
        ({
            &&& r matches Ok(w)
            &&& ({
                if state.player_count == 0 {
                    w@.len() == 0
                } else {
                    let idx = spec_winner_index(state.seed@, state.player_count);
                    &&& w@.len() == 1
                    &&& w@[0]@ == players@[idx - 1]
                }
            })
        }),
{
    if state.player_count == 0 {
        Ok(Vec::new())
    } else if state.player_count == 1 {
        let mut w: Vec<PlayerInfo> = Vec::new();
        w.push(clone_player(&players.players[0]));
        proof {
            assert(w@[0]@ == players@[0]);
        }
        Ok(w)
    } else {
        let n: usize = players.players.len();
        let seed_num = hash_to_u64(state.seed.as_str());
        let idx = seed_num % player_counter + 1;
        proof {
            assert(player_counter == n);
            assert(1 <= idx <= player_counter);
        }
        let i: usize = (idx - 1) as usize;
        let mut w: Vec<PlayerInfo> = Vec::new();
        w.push(clone_player(&players.players[i]));
        proof {
            assert(w@[0]@ == players@[idx - 1]);
        }
        Ok(w)
    }
}

/// The memo the draw folds into the seed: the transaction's position inside
/// its block, rendered in decimal, where the host knows it.
pub open spec fn spec_tx_memo(idx: Option<u32>) -> Option<Seq<char>> {
    match idx {
        Some(i) => Some(dec_digits(i as nat)),
        None => None,
    }
}

/// Everything a draw call does: its result and the state it leaves behind.
/// A rejected draw reports the first failing guard and changes nothing; an
/// accepted one seals the seed, closes the game, and records the winner
/// with the prize balance — no winner when nobody bought.
pub open spec fn spec_draw_post(
    pre: Lottery,
    env: Env,
    info: MessageInfo,
    balance: Coin,
    r: Result<(), ContractError>,
    post: Lottery,
) -> bool {
    if !spec_draw_allowed(pre.state, pre.owner@, info.sender@, env, pre.player_counter) {
        &&& (r matches Err(e) && spec_draw_err(
            pre.state,
            pre.owner@,
            info.sender@,
            env,
            pre.player_counter,
            e,
        ))
        &&& post == pre
    } else {
        let seed2 = spec_finalize(
            pre.state.seed@,
            info.sender@,
            env.height,
            spec_tx_memo(env.transaction_index),
        );
        &&& r == Ok::<(), ContractError>(())
        &&& post.owner == pre.owner
        &&& post.player_counter == pre.player_counter
        &&& post.players == pre.players
        &&& post.state@ == (StateV {
            status: GameStatus::Closed,
            seed: seed2,
            winner: if pre.state.player_count == 0 {
                Seq::<WinnerInfoV>::empty()
            } else {
                seq![
                    WinnerInfoV {
                        address: pre.players@[spec_winner_index(
                            seed2,
                            pre.state.player_count,
                        ) - 1].player_addr,
                        prize: seq![balance@],
                        ticket_id: pre.players@[spec_winner_index(
                            seed2,
                            pre.state.player_count,
                        ) - 1].ticket_id,
                    },
                ]
            },
            ..pre.state@
        })
    }
}

impl Lottery {
    /// Draws the winner: checks every draw guard in order, seals the seed
    /// with the drawer and the block position, closes the game, and records
    /// the winner holding the prize balance the host reported.
    pub fn draw_lottery(&mut self, env: &Env, info: &MessageInfo, balance: &Coin) -> (r: Result<
        (),
        ContractError,
    >)
        requires
            old(self).wf(),
        ensures
            final(self).wf(),
            spec_draw_post(*old(self), *env, *info, *balance, r, *final(self)),
    {
        match validate_draw(&self.state, &self.owner, info, env, self.player_counter) {
            Ok(()) => (),
            Err(e) => {
                return Err(e);
            },
        }
        let tx = match env.transaction_index {
            Some(i) => Some(u64_to_string(i as u64)),
            None => None,
        };
        let new_seed = crate::hash::finalize(
            self.state.seed.as_str(),
            info.sender.as_str(),
            env.height,
            &tx,
        );
        self.state.status = GameStatus::Closed;
        self.state.seed = new_seed;
        let winners = match choose_winner_infos(&self.state, &self.players, self.player_counter) {
            Ok(w) => w,
            Err(e) => {
                proof {
                    assert(false);
                }
                return Err(e);
            },
        };
        if winners.len() == 0 {
            self.state.winner = Vec::new();
        } else {
            let winner_player = &winners[0];
            let mut prize: Vec<Coin> = Vec::new();
            prize.push(clone_coin(balance));
            let winner_info = WinnerInfo {
                address: winner_player.player_addr.clone(),
                prize,
                ticket_id: winner_player.ticket_id.clone(),
            };
            let mut wv: Vec<WinnerInfo> = Vec::new();
            wv.push(winner_info);
            self.state.winner = wv;
        }
        proof {
            let seed2 = spec_finalize(
                old(self).state.seed@,
                info.sender@,
                env.height,
                spec_tx_memo(env.transaction_index),
            );
            assert(final(self).state@ =~~= (StateV {
                status: GameStatus::Closed,
                seed: seed2,
                winner: if old(self).state.player_count == 0 {
                    Seq::<WinnerInfoV>::empty()
                } else {
                    seq![
                        WinnerInfoV {
                            address: old(self).players@[spec_winner_index(
                                seed2,
                                old(self).state.player_count,
                            ) - 1].player_addr,
                            prize: seq![balance@],
                            ticket_id: old(self).players@[spec_winner_index(
                                seed2,
                                old(self).state.player_count,
                            ) - 1].ticket_id,
                        },
                    ]
                },
                ..old(self).state@
            }));
        }
        Ok(())
    }

    /// Hands the owner capability to the winner: legal once the lottery is
    /// closed and the caller holds the winning ticket, whose current owner
    /// the host resolves.
    pub fn claim_lottery(&mut self, info: &MessageInfo, ticket_owner: &String) -> (r: Result<
        (),
        ContractError,
    >)
        requires
            old(self).wf(),
        ensures
            final(self).wf(),
            ({
                if old(self).state@.winner.len() == 0 {
                    &&& r == Err::<(), ContractError>(ContractError::NothingToClaim {})
                    &&& *final(self) == *old(self)
                } else if old(self).state.spec_is_closed() && ticket_owner@ == info.sender@ {
                    &&& r == Ok::<(), ContractError>(())
                    &&& final(self).owner@ == info.sender@
                    &&& final(self).state == old(self).state
                    &&& final(self).players == old(self).players
                    &&& final(self).player_counter == old(self).player_counter
                } else {
                    &&& r == Err::<(), ContractError>(ContractError::Unauthorized {})
                    &&& *final(self) == *old(self)
                }
            }),
    {
        if self.state.winner.len() == 0 {
            return Err(ContractError::NothingToClaim {});
        }
        if self.state.is_closed() && ticket_owner.eq(&info.sender) {
            self.owner = info.sender.clone();
            Ok(())
        } else {
            Err(ContractError::Unauthorized {})
        }
    }

    /// Hands the owner capability to a recipient the owner names.
    pub fn transfer(&mut self, env: &Env, info: &MessageInfo, recipient: String) -> (r: Result<
        (),
        ContractError,
    >)
        requires
            old(self).wf(),
        ensures
            final(self).wf(),
            ({
                if old(self).owner@ != info.sender@ {
                    &&& r == Err::<(), ContractError>(ContractError::Unauthorized {})
                    &&& *final(self) == *old(self)
                } else {
                    &&& r == Ok::<(), ContractError>(())
                    &&& final(self).owner@ == recipient@
                    &&& final(self).state == old(self).state
                    &&& final(self).players == old(self).players
                    &&& final(self).player_counter == old(self).player_counter
                }
            }),
    {
        match validate_owner(&self.owner, info) {
            Ok(()) => (),
            Err(e) => {
                return Err(e);
            },
        }
        self.owner = recipient;
        Ok(())
    }

    /// Builds the bank transfer for a withdrawal: only the owner may
    /// withdraw, up to the balance the host reported, to a named recipient
    /// or back to the caller.
    pub fn withdraw(
        &self,
        info: &MessageInfo,
        amount: u128,
        denom: &str,
        balance: &Coin,
        recipient: Option<String>,
    ) -> (r: Result<BankSend, ContractError>)
        ensures
            match r {
                Ok(send) => {
                    &&& self.owner@ == info.sender@
                    &&& balance@.amount >= amount
                    &&& send.to_address@ == (match recipient {
                        Some(rec) => rec@,
                        None => info.sender@,
                    })
                    &&& send.amount@.len() == 1
                    &&& send.amount@[0]@ == (CoinV { denom: denom@, amount })
                },
                Err(e) => {
                    if self.owner@ != info.sender@ {
                        e == (ContractError::Unauthorized {})
                    } else {
                        balance@.amount < amount && (e
                            matches ContractError::BalanceTooSmall { balance: b } && b@ == balance@)
                    }
                },
            },
    {
        match validate_owner(&self.owner, info) {
            Ok(()) => (),
            Err(e) => {
                return Err(e);
            },
        }
        match validate_balance(balance, amount) {
            Ok(()) => (),
            Err(e) => {
                return Err(e);
            },
        }
        let to_address = match recipient {
            Some(rec) => rec,
            None => info.sender.clone(),
        };
        let mut coins: Vec<Coin> = Vec::new();
        coins.push(Coin { denom: denom.to_owned(), amount });
        Ok(BankSend { to_address, amount: coins })
    }

    /// The current holder of the owner capability.
    pub fn owner(&self) -> (resp: OwnerResp)
        ensures
            resp.owner@ == self.owner@,
    {
        OwnerResp { owner: self.owner.clone() }
    }

    /// The recorded winner, empty until drawn.
    pub fn winner(&self) -> (resp: WinnerResp)
        ensures
            view_winners(resp.winner) == self.state@.winner,
    {
        WinnerResp { winner: clone_winners(&self.state.winner) }
    }

    /// The full aggregate state.
    pub fn current_state(&self) -> (resp: CurrentStateResp)
        ensures
            resp.state@ == self.state@,
    {
        CurrentStateResp { state: clone_state(&self.state) }
    }

    /// One address's participant entry, where it has one.
    pub fn play_info(&self, address: &String) -> (resp: PlayInfoResp)
        ensures
            match resp.info {
                Some(p) => {
                    &&& self.players.spec_contains(address@)
                    &&& p@.player_addr == address@
                    &&& exists|i: int|
                        0 <= i < self.players@.len() && (#[trigger] self.players@[i]) == p@
                },
                None => !self.players.spec_contains(address@),
            },
    {
        match self.players.get_by_address(address) {
            Some(p) => PlayInfoResp { info: Some(clone_player(p)) },
            None => PlayInfoResp { info: None },
        }
    }
}

/// Index monotonicity: after any sequence of successful buys, the assigned
/// ticket identifiers are exactly "1", "2", ..., N, in buy order, with no
/// gap and no repeat.
pub proof fn lemma_index_monotonicity(lot: Lottery)
    requires
        lot.wf(),
    ensures
        forall|i: int|
            0 <= i < lot.players@.len() ==> (#[trigger] lot.players@[i]).ticket_id == dec_digits(
                (i + 1) as nat,
            ),
{
}

/// Cap enforcement: once the participant count has reached the cap, a buy
/// with an acceptable and sufficient payment fails with the cap error —
/// whatever the status, expiry or sender — and changes nothing.
pub proof fn lemma_cap_enforcement(
    pre: Lottery,
    env: Env,
    info: MessageInfo,
    denom: Seq<char>,
    memo: Option<Seq<char>>,
    r: Result<(), ContractError>,
    post: Lottery,
)
    requires
        pre.wf(),
        spec_buy_post(pre, env, info, denom, memo, r, post),
        spec_payment_ok(info.funds@, denom),
        denom == pre.state.unit_price@.denom,
        info.funds@[0]@.amount >= pre.state.unit_price@.amount,
        pre.player_counter == pre.state.max_players,
    ensures
        r == Err::<(), ContractError>(ContractError::PlayerExceededMaximum {
            max_players: pre.player_counter,
        }),
        post == pre,
{
}

/// No double buy: after an address's successful buy, a second buy by the
/// same address fails with the one-ticket error even when the lottery is
/// otherwise open, under cap, and correctly paid.
pub proof fn lemma_no_double_buy(
    pre: Lottery,
    env1: Env,
    info1: MessageInfo,
    denom1: Seq<char>,
    memo1: Option<Seq<char>>,
    post1: Lottery,
    env2: Env,
    info2: MessageInfo,
    denom2: Seq<char>,
    memo2: Option<Seq<char>>,
    r2: Result<(), ContractError>,
    post2: Lottery,
)
    requires
        pre.wf(),
        spec_buy_post(pre, env1, info1, denom1, memo1, Ok(()), post1),
        spec_buy_post(post1, env2, info2, denom2, memo2, r2, post2),
        info2.sender@ == info1.sender@,
        spec_buy_allowed(post1.state, info2.funds@, denom2, env2, post1.player_counter),
    ensures
        r2 matches Err(ContractError::LotteryCanBuyOnce { player }) && player@ == info1.sender@,
        post2 == post1,
{
    assert(post1.players@[post1.players@.len() - 1].player_addr == info1.sender@);
    assert(post1.players.spec_contains(info1.sender@));
}

/// Winner selection bounds: for every seed value and every participant
/// count of at least one, the drawn ticket index lies in [1, count].
pub proof fn lemma_selection_in_range(seed: Seq<char>, count: u64)
    requires
        count >= 1,
    ensures
        1 <= spec_winner_index(seed, count) <= count,
{
}

/// One-way closing: a successful draw leaves the lottery closed, and a
/// second draw under the same capability and eligibility always fails with
/// the already-closed error, changing nothing.
pub proof fn lemma_one_way_closing(
    pre: Lottery,
    env1: Env,
    info1: MessageInfo,
    bal1: Coin,
    post1: Lottery,
    env2: Env,
    info2: MessageInfo,
    bal2: Coin,
    r2: Result<(), ContractError>,
    post2: Lottery,
)
    requires
        pre.wf(),
        spec_draw_post(pre, env1, info1, bal1, Ok(()), post1),
        spec_draw_post(post1, env2, info2, bal2, r2, post2),
        info2.sender@ == post1.owner@,
        env2.height >= post1.state.height,
        env2.time.nanos >= post1.state.expiratoin.nanos || post1.player_counter
            >= post1.state.max_players,
    ensures
        post1.state.spec_is_closed(),
        r2 == Err::<(), ContractError>(ContractError::LotteryAlreadyClosed {}),
        post2 == post1,
{
    assert(post1.state@.status == GameStatus::Closed);
}

/// No buy succeeds after the close: whatever the payment and the sender, a
/// buy against a closed lottery returns an error and changes nothing.
pub proof fn lemma_no_buy_after_close(
    pre: Lottery,
    env: Env,
    info: MessageInfo,
    denom: Seq<char>,
    memo: Option<Seq<char>>,
    r: Result<(), ContractError>,
    post: Lottery,
)
    requires
        spec_buy_post(pre, env, info, denom, memo, r, post),
        pre.state.spec_is_closed(),
    ensures
        r is Err,
        post == pre,
{
}

} // verus!
