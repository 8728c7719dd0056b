//! The lottery's data model: the aggregate state, the game status, the
//! winner-selection mode, the period and category tokens with their
//! case-insensitive parsers, and the participant and winner records.

use vstd::prelude::*;
use crate::error::ContractError;
use crate::text::{canon_token, parse_token};
use crate::types::{view_opt_string, Coin, CoinV, Timestamp};

verus! {

/// How the prize pool is distributed among winners.
#[derive(Clone, Debug, PartialEq, Eq)]
pub enum WinnerSelection {
    /// A single winner takes the whole prize pool.
    Jackpot {},
    /// A fixed percentage split over the first places, e.g. [60, 30, 10].
    /// Declared by the configuration but not executed by this core.
    Fixed { pct_split: Vec<u8>, winner_count: u32, max_winner_count: Option<u32> },
}

/// The mathematical content of a [`WinnerSelection`].
#[verifier::ext_equal]
pub enum WinnerSelectionV {
    Jackpot {},
    Fixed { pct_split: Seq<u8>, winner_count: u32, max_winner_count: Option<u32> },
}

impl View for WinnerSelection {
    type V = WinnerSelectionV;

    open spec fn view(&self) -> WinnerSelectionV {
        match self {
            WinnerSelection::Jackpot {} => WinnerSelectionV::Jackpot {},
            WinnerSelection::Fixed { pct_split, winner_count, max_winner_count } =>
                WinnerSelectionV::Fixed {
                    pct_split: pct_split@,
                    winner_count: *winner_count,
                    max_winner_count: *max_winner_count,
                },
        }
    }
}

impl WinnerSelection {
    /// Whether this is the jackpot mode, the only mode the core executes.
    pub open spec fn spec_is_jackpot(self) -> bool {
        self matches WinnerSelection::Jackpot {}
    }

    pub fn is_jackpot(&self) -> (r: bool)
        ensures
            r == self.spec_is_jackpot(),
    {
        match self {
            WinnerSelection::Jackpot {} => true,
            _ => false,
        }
    }
}

/// Whether the lottery is still taking buys or has been drawn.
#[derive(Clone, Copy, Debug, PartialEq, Eq, Structural)]
pub enum GameStatus {
    Activing,
    Closed,
}

/// The prize convention of the lottery.
#[derive(Clone, Copy, Debug, PartialEq, Eq, Structural)]
pub enum LotteryCategory {
    Normal {},
    SpecifyPrize {},
}

impl Default for LotteryCategory {
    fn default() -> (d: Self)
        ensures
            d == (LotteryCategory::Normal {}),
    {
        LotteryCategory::Normal {}
    }
}

impl LotteryCategory {
    /// The category named by `s`, compared case-insensitively after trimming.
    pub open spec fn spec_parse(s: Seq<char>) -> Option<LotteryCategory> {
        if canon_token(s) == "normal"@ {
            Some(LotteryCategory::Normal {})
        } else if canon_token(s) == "specify_prize"@ {
            Some(LotteryCategory::SpecifyPrize {})
        } else {
            None
        }
    }

    /// Parses a category token; an unrecognized token is a configuration error.
    pub fn parse(s: &str) -> (r: Result<LotteryCategory, ContractError>)
        ensures
            match r {
                Ok(c) => Self::spec_parse(s@) == Some(c),
                Err(e) => {
                    &&& Self::spec_parse(s@) is None
                    &&& e matches ContractError::InvalidCategory { value } && value@ == s@
                },
            },
    {
        proof {
            reveal_strlit("normal");
            reveal_strlit("specify_prize");
        }
        if parse_token(s, "normal") {
            Ok(LotteryCategory::Normal {})
        } else if parse_token(s, "specify_prize") {
            Ok(LotteryCategory::SpecifyPrize {})
        } else {
            Err(ContractError::InvalidCategory { value: s.to_owned() })
        }
    }
}

impl core::str::FromStr for LotteryCategory {
    type Err = ContractError;

    fn from_str(s: &str) -> Result<LotteryCategory, ContractError> {
        LotteryCategory::parse(s)
    }
}

/// How long the buying window stays open, counted from creation.
#[derive(Clone, Copy, Debug, PartialEq, Eq, Structural)]
pub enum LotteryPeriod {
    Hour {},
    Day {},
    Week {},
    Month {},
    Year {},
}

impl Default for LotteryPeriod {
    fn default() -> (d: Self)
        ensures
            d == (LotteryPeriod::Day {}),
    {
        LotteryPeriod::Day {}
    }
}

impl LotteryPeriod {
    /// The period named by `s`, compared case-insensitively after trimming.
    pub open spec fn spec_parse(s: Seq<char>) -> Option<LotteryPeriod> {
        if canon_token(s) == "hour"@ {
            Some(LotteryPeriod::Hour {})
        } else if canon_token(s) == "day"@ {
            Some(LotteryPeriod::Day {})
        } else if canon_token(s) == "week"@ {
            Some(LotteryPeriod::Week {})
        } else if canon_token(s) == "month"@ {
            Some(LotteryPeriod::Month {})
        } else if canon_token(s) == "year"@ {
            Some(LotteryPeriod::Year {})
        } else {
            None
        }
    }

    /// Parses a period token; an unrecognized token is a configuration error.
    pub fn parse(s: &str) -> (r: Result<LotteryPeriod, ContractError>)
        ensures
            match r {
                Ok(p) => Self::spec_parse(s@) == Some(p),
                Err(e) => {
                    &&& Self::spec_parse(s@) is None
                    &&& e matches ContractError::InvalidLottoryPeriod { value } && value@ == s@
                },
            },
    {
        proof {
            reveal_strlit("hour");
            reveal_strlit("day");
            reveal_strlit("week");
            reveal_strlit("month");
            reveal_strlit("year");
        }
        if parse_token(s, "hour") {
            Ok(LotteryPeriod::Hour {})
        } else if parse_token(s, "day") {
            Ok(LotteryPeriod::Day {})
        } else if parse_token(s, "week") {
            Ok(LotteryPeriod::Week {})
        } else if parse_token(s, "month") {
            Ok(LotteryPeriod::Month {})
        } else if parse_token(s, "year") {
            Ok(LotteryPeriod::Year {})
        } else {
            Err(ContractError::InvalidLottoryPeriod { value: s.to_owned() })
        }
    }

    pub fn is_hour(&self) -> (r: bool)
        ensures
            r == (*self == LotteryPeriod::Hour {}),
    {
        *self == LotteryPeriod::Hour {}
    }

    pub fn is_day(&self) -> (r: bool)
        ensures
            r == (*self == LotteryPeriod::Day {}),
    {
        *self == LotteryPeriod::Day {}
    }

    pub fn is_week(&self) -> (r: bool)
        ensures
            r == (*self == LotteryPeriod::Week {}),
    {
        *self == LotteryPeriod::Week {}
    }

    pub fn is_month(&self) -> (r: bool)
        ensures
            r == (*self == LotteryPeriod::Month {}),
    {
        *self == LotteryPeriod::Month {}
    }

    pub fn is_year(&self) -> (r: bool)
        ensures
            r == (*self == LotteryPeriod::Year {}),
    {
        *self == LotteryPeriod::Year {}
    }
}

impl core::str::FromStr for LotteryPeriod {
    type Err = ContractError;

    fn from_str(s: &str) -> Result<LotteryPeriod, ContractError> {
        LotteryPeriod::parse(s)
    }
}

/// One display attribute of a ticket's metadata.
#[derive(Clone, Debug, PartialEq, Eq)]
pub struct Trait {
    pub display_type: Option<String>,
    pub trait_type: String,
    pub value: String,
}

/// The mathematical content of a [`Trait`].
#[verifier::ext_equal]
pub struct TraitV {
    pub display_type: Option<Seq<char>>,
    pub trait_type: Seq<char>,
    pub value: Seq<char>,
}

impl View for Trait {
    type V = TraitV;

    open spec fn view(&self) -> TraitV {
        TraitV {
            display_type: match self.display_type {
                Some(ref s) => Some(s@),
                None => None,
            },
            trait_type: self.trait_type@,
            value: self.value@,
        }
    }
}

/// Display metadata of a ticket, all fields optional.
#[derive(Clone, Debug, PartialEq, Eq)]
pub struct Metadata {
    pub image: Option<String>,
    pub image_data: Option<String>,
    pub external_url: Option<String>,
    pub description: Option<String>,
    pub name: Option<String>,
    pub attributes: Option<Vec<Trait>>,
    pub background_color: Option<String>,
    pub animation_url: Option<String>,
    pub youtube_url: Option<String>,
}

/// The mathematical content of a [`Metadata`].
#[verifier::ext_equal]
pub struct MetadataV {
    pub image: Option<Seq<char>>,
    pub image_data: Option<Seq<char>>,
    pub external_url: Option<Seq<char>>,
    pub description: Option<Seq<char>>,
    pub name: Option<Seq<char>>,
    pub attributes: Option<Seq<TraitV>>,
    pub background_color: Option<Seq<char>>,
    pub animation_url: Option<Seq<char>>,
    pub youtube_url: Option<Seq<char>>,
}

/// The view of a metadata record with every field absent.
pub open spec fn metadata_empty() -> MetadataV {
    MetadataV {
        image: None,
        image_data: None,
        external_url: None,
        description: None,
        name: None,
        attributes: None,
        background_color: None,
        animation_url: None,
        youtube_url: None,
    }
}

impl View for Metadata {
    type V = MetadataV;

    open spec fn view(&self) -> MetadataV {
        MetadataV {
            image: view_opt_string(self.image),
            image_data: view_opt_string(self.image_data),
            external_url: view_opt_string(self.external_url),
            description: view_opt_string(self.description),
            name: view_opt_string(self.name),
            attributes: match self.attributes {
                Some(ref v) => Some(Seq::new(v@.len(), |i: int| v@[i]@)),
                None => None,
            },
            background_color: view_opt_string(self.background_color),
            animation_url: view_opt_string(self.animation_url),
            youtube_url: view_opt_string(self.youtube_url),
        }
    }
}

impl Default for Metadata {
    fn default() -> (d: Self)
        ensures
            d@ == metadata_empty(),
    {
        Metadata {
            image: None,
            image_data: None,
            external_url: None,
            description: None,
            name: None,
            attributes: None,
            background_color: None,
            animation_url: None,
            youtube_url: None,
        }
    }
}

/// One participant's record: created once at buy time, never changed.
#[derive(Clone, Debug, PartialEq, Eq)]
pub struct PlayerInfo {
    pub player_addr: String,
    pub lottery_addr: String,
    pub buy_at: u64,
    pub height: u64,
    pub ticket_id: String,
    pub memo: Option<String>,
}

/// The mathematical content of a [`PlayerInfo`].
#[verifier::ext_equal]
pub struct PlayerInfoV {
    pub player_addr: Seq<char>,
    pub lottery_addr: Seq<char>,
    pub buy_at: u64,
    pub height: u64,
    pub ticket_id: Seq<char>,
    pub memo: Option<Seq<char>>,
}

impl View for PlayerInfo {
    type V = PlayerInfoV;

    open spec fn view(&self) -> PlayerInfoV {
        PlayerInfoV {
            player_addr: self.player_addr@,
            lottery_addr: self.lottery_addr@,
            buy_at: self.buy_at,
            height: self.height,
            ticket_id: self.ticket_id@,
            memo: view_opt_string(self.memo),
        }
    }
}

/// The drawn winner: its address, its prize, and its winning ticket.
#[derive(Clone, Debug, PartialEq, Eq)]
pub struct WinnerInfo {
    pub address: String,
    pub prize: Vec<Coin>,
    pub ticket_id: String,
}

/// The mathematical content of a [`WinnerInfo`].
#[verifier::ext_equal]
pub struct WinnerInfoV {
    pub address: Seq<char>,
    pub prize: Seq<CoinV>,
    pub ticket_id: Seq<char>,
}

impl View for WinnerInfo {
    type V = WinnerInfoV;

    open spec fn view(&self) -> WinnerInfoV {
        WinnerInfoV {
            address: self.address@,
            prize: Seq::new(self.prize@.len(), |i: int| self.prize@[i]@),
            ticket_id: self.ticket_id@,
        }
    }
}

/// The views of a winner list, in order.
pub open spec fn view_winners(v: Vec<WinnerInfo>) -> Seq<WinnerInfoV> {
    Seq::new(v@.len(), |i: int| v@[i]@)
}

/// The aggregate state of one lottery instance.
#[derive(Clone, Debug, PartialEq, Eq)]
pub struct State {
    pub name: String,
    pub symbol: String,
    /// The block height at creation; buying is legal only at or after it.
    pub height: u64,
    pub created_at: Timestamp,
    /// The absolute end of the buying window.
    pub expiratoin: Timestamp,
    /// The exact payment a buyer must attach.
    pub unit_price: Coin,
    pub period: LotteryPeriod,
    pub selection: WinnerSelection,
    /// The number of tickets sold so far; never decremented.
    pub player_count: u64,
    /// The hard cap on tickets.
    pub max_players: u64,
    pub status: GameStatus,
    /// The rolling seed digest, folded on every buy and sealed by the draw.
    pub seed: String,
    /// Empty until drawn; at most one entry in jackpot mode.
    pub winner: Vec<WinnerInfo>,
    pub category: LotteryCategory,
    pub extension: Metadata,
}

/// The mathematical content of a [`State`].
#[verifier::ext_equal]
pub struct StateV {
    pub name: Seq<char>,
    pub symbol: Seq<char>,
    pub height: u64,
    pub created_at: Timestamp,
    pub expiratoin: Timestamp,
    pub unit_price: CoinV,
    pub period: LotteryPeriod,
    pub selection: WinnerSelectionV,
    pub player_count: u64,
    pub max_players: u64,
    pub status: GameStatus,
    pub seed: Seq<char>,
    pub winner: Seq<WinnerInfoV>,
    pub category: LotteryCategory,
    pub extension: MetadataV,
}

impl View for State {
    type V = StateV;

    open spec fn view(&self) -> StateV {
        StateV {
            name: self.name@,
            symbol: self.symbol@,
            height: self.height,
            created_at: self.created_at,
            expiratoin: self.expiratoin,
            unit_price: self.unit_price@,
            period: self.period,
            selection: self.selection@,
            player_count: self.player_count,
            max_players: self.max_players,
            status: self.status,
            seed: self.seed@,
            winner: view_winners(self.winner),
            category: self.category,
            extension: self.extension@,
        }
    }
}

impl State {
    /// Whether the lottery has been drawn.
    pub open spec fn spec_is_closed(self) -> bool {
        self.status == GameStatus::Closed
    }

    pub fn is_closed(&self) -> (r: bool)
        ensures
            r == self.spec_is_closed(),
    {
        self.status == GameStatus::Closed
    }
}

} // verus!
