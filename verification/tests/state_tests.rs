use lottery::error::ContractError;
use lottery::state::{GameStatus, LotteryCategory, LotteryPeriod, State, WinnerSelection};
use lottery::types::{coin, Timestamp};

#[test]
fn lottery_period_should_works() {
    let hour = "hour";
    let day = "dAY";
    let week = "Week";
    let month = "moNth";
    let year = "yeaR";

    let period_h = hour.parse().unwrap();
    assert_eq!(LotteryPeriod::Hour {}, period_h);
    assert!(period_h.is_hour());

    let period_d = day.parse().unwrap();
    assert_eq!(LotteryPeriod::Day {}, period_d);
    assert!(period_d.is_day());

    let period_w = week.parse().unwrap();
    assert_eq!(LotteryPeriod::Week {}, period_w);
    assert!(period_w.is_week());

    let period_m = month.parse().unwrap();
    assert_eq!(LotteryPeriod::Month {}, period_m);
    assert!(period_m.is_month());

    let period_y = year.parse().unwrap();
    assert_eq!(LotteryPeriod::Year {}, period_y);
    assert!(period_y.is_year());
}

#[test]
fn lottery_period_trims_and_rejects() {
    let padded: LotteryPeriod = "  Hour\t".parse().unwrap();
    assert_eq!(LotteryPeriod::Hour {}, padded);

    let err = "fortnight".parse::<LotteryPeriod>().unwrap_err();
    assert_eq!(
        ContractError::InvalidLottoryPeriod { value: "fortnight".to_string() },
        err
    );

    let err = "".parse::<LotteryPeriod>().unwrap_err();
    assert_eq!(ContractError::InvalidLottoryPeriod { value: "".to_string() }, err);
}

#[test]
fn lottery_category_parse_should_works() {
    let normal: LotteryCategory = "Normal".parse().unwrap();
    assert_eq!(LotteryCategory::Normal {}, normal);

    let specify: LotteryCategory = " SPECIFY_PRIZE ".parse().unwrap();
    assert_eq!(LotteryCategory::SpecifyPrize {}, specify);

    let err = "other".parse::<LotteryCategory>().unwrap_err();
    assert_eq!(ContractError::InvalidCategory { value: "other".to_string() }, err);

    assert_eq!(LotteryCategory::Normal {}, LotteryCategory::default());
    assert_eq!(LotteryPeriod::Day {}, LotteryPeriod::default());
}

#[test]
fn state_is_closed_should_works() {
    let state = State {
        name: "LOTTERY".to_string(),
        symbol: "LOTTER".to_string(),
        height: 1,
        created_at: Timestamp { nanos: 0 },
        expiratoin: Timestamp { nanos: 0 },
        unit_price: coin(100, "aconst"),
        period: LotteryPeriod::Hour {},
        selection: WinnerSelection::Jackpot {},
        player_count: 0,
        max_players: 3,
        status: GameStatus::Activing,
        seed: String::new(),
        winner: Vec::new(),
        category: LotteryCategory::Normal {},
        extension: Default::default(),
    };
    assert!(!state.is_closed());
    assert!(state.selection.is_jackpot());
    let closed = State { status: GameStatus::Closed, ..state };
    assert!(closed.is_closed());
}
