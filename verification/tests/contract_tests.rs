use lottery::contract::{choose_winner_infos, instantiate, Lottery};
use lottery::error::{ContractError, PaymentError};
use lottery::msg::InstantiateMsg;
use lottery::state::{GameStatus, LotteryPeriod, WinnerSelection};
use lottery::types::{coin, Coin, Env, MessageInfo, Timestamp};

const ARCH_DEMON: &str = "aconst";

fn alice() -> String {
    "sei18rszd3tmgpjvjwq2qajtmn5jqvtscd2yuygl4z".to_string()
}

fn bob() -> String {
    "sei1aan9kqywf4rf274cal0hj6eyly6wu0uv7edxy2".to_string()
}

fn owner() -> String {
    "sei1zj6fjsc2gkce878ukzg6g9wy8cl8p554dlggxd".to_string()
}

fn mock_env() -> Env {
    Env {
        height: 12345,
        time: Timestamp::from_seconds(1_571_797_419),
        contract_address: "contract0".to_string(),
        transaction_index: Some(0),
    }
}

fn mock_info(sender: String, funds: Vec<Coin>) -> MessageInfo {
    MessageInfo { sender, funds }
}

fn coins(amount: u128, denom: &str) -> Vec<Coin> {
    vec![coin(amount, denom)]
}

fn default_msg(max_players: u64) -> InstantiateMsg {
    InstantiateMsg::new(
        "LOTTERY",
        "LOTTER",
        100,
        ARCH_DEMON,
        "hour",
        1_700_000_000,
        WinnerSelection::Jackpot {},
        max_players,
        None,
    )
}

fn create(max_players: u64) -> Lottery {
    instantiate(&mock_env(), &mock_info(owner(), vec![]), &default_msg(max_players)).unwrap()
}

#[test]
fn instantiate_should_works() {
    let contract = create(3);

    // check winner
    let winner = contract.winner();
    assert_eq!(winner.winner, vec![]);

    // check owner
    let contract_owner = contract.owner();
    assert_eq!(contract_owner.owner, owner());

    // check state
    let state = contract.current_state().state;
    assert_eq!(state.name, "LOTTERY");
    assert_eq!(state.unit_price, coin(100, ARCH_DEMON));
    assert_eq!(state.max_players, 3);
    assert_eq!(state.status, GameStatus::Activing);
    assert_eq!(state.player_count, 0);
    assert_eq!(state.selection, WinnerSelection::Jackpot {});
    assert_eq!(state.period, LotteryPeriod::Hour {});
    assert_eq!(state.height, 12345);

    // check is joined
    let is_joined = contract.play_info(&owner());
    assert!(is_joined.info.is_none());
}

#[test]
fn instantiate_rejects_bad_configuration() {
    let env = mock_env();
    let info = mock_info(owner(), vec![]);

    let mut msg = default_msg(3);
    msg.unit_price_amount = 0;
    let err = instantiate(&env, &info, &msg).unwrap_err();
    assert_eq!(ContractError::InvalidUnitPrice { value: 0 }, err);

    let mut msg = default_msg(3);
    msg.selection = WinnerSelection::Fixed {
        pct_split: vec![60, 30, 10],
        winner_count: 3,
        max_winner_count: None,
    };
    let err = instantiate(&env, &info, &msg).unwrap_err();
    assert!(matches!(err, ContractError::UnSupportedWinnerSelection { .. }));

    let mut msg = default_msg(3);
    msg.period = "weekly".to_string();
    let err = instantiate(&env, &info, &msg).unwrap_err();
    assert_eq!(ContractError::InvalidLottoryPeriod { value: "weekly".to_string() }, err);

    let mut msg = default_msg(3);
    msg.expiration = 1_000_000;
    let err = instantiate(&env, &info, &msg).unwrap_err();
    assert_eq!(
        ContractError::InstantiateExpirationInvalid {
            expiration_secs: 1_000_000,
            created_at: 1_571_797_419,
        },
        err
    );
}

#[test]
fn lottery_full_flows_should_works() {
    let env = mock_env();
    let mut contract = create(2);

    // Buy ticket
    contract
        .buy_ticket(
            &env,
            &mock_info(alice(), coins(100, ARCH_DEMON)),
            ARCH_DEMON,
            Some("恭喜发财!".to_string()),
        )
        .unwrap();

    contract
        .buy_ticket(
            &env,
            &mock_info(bob(), coins(100, ARCH_DEMON)),
            ARCH_DEMON,
            Some("我要发".to_string()),
        )
        .unwrap();

    // each buyer holds the ticket of its buy position
    let ticket = contract.play_info(&alice()).info.unwrap();
    assert_eq!(ticket.ticket_id, "1");
    let ticket = contract.play_info(&bob()).info.unwrap();
    assert_eq!(ticket.ticket_id, "2");

    let state = contract.current_state();
    assert_eq!(state.state.player_count, 2);

    let resp = contract.play_info(&alice()).info.unwrap();

    assert_eq!(resp.player_addr, alice());
    assert_eq!(resp.memo, Some("恭喜发财!".to_string()));

    // draw lottery: the cap is reached, so the draw is legal; the host
    // reports the 200 held by the instance as the prize pool
    contract
        .draw_lottery(&env, &mock_info(owner(), vec![]), &coin(200, ARCH_DEMON))
        .unwrap();

    // the winning ticket's holder claims the owner capability
    contract
        .claim_lottery(&mock_info(alice(), vec![]), &alice())
        .unwrap();

    let contract_owner = contract.owner();
    assert_eq!(contract_owner.owner, alice());

    let state = contract.current_state();
    assert_eq!(state.state.player_count, 2);
    assert_eq!(state.state.winner.len(), 1);
    assert_eq!(state.state.status, GameStatus::Closed);

    let winner = state.state.winner.first().unwrap();
    assert_eq!(winner.address, alice());
    assert_eq!(winner.prize, coins(200, ARCH_DEMON));
    assert_eq!(winner.ticket_id, "1");

    // withdraw funds
    let send = contract
        .withdraw(
            &mock_info(alice(), vec![]),
            100,
            ARCH_DEMON,
            &coin(200, ARCH_DEMON),
            None,
        )
        .unwrap();
    assert_eq!(send.to_address, alice());
    assert_eq!(send.amount, coins(100, ARCH_DEMON));

    let send = contract
        .withdraw(
            &mock_info(alice(), vec![]),
            100,
            ARCH_DEMON,
            &coin(100, ARCH_DEMON),
            Some(bob()),
        )
        .unwrap();
    assert_eq!(send.to_address, bob());
    assert_eq!(send.amount, coins(100, ARCH_DEMON));
}

#[test]
fn draw_lottery_should_fail() {
    let env = mock_env();
    let mut contract = create(3);

    // Buy ticket
    contract
        .buy_ticket(
            &env,
            &mock_info(alice(), coins(100, ARCH_DEMON)),
            ARCH_DEMON,
            Some("恭喜发财!".to_string()),
        )
        .unwrap();

    let err = contract
        .draw_lottery(&env, &mock_info(alice(), vec![]), &coin(100, ARCH_DEMON))
        .unwrap_err();
    assert_eq!(ContractError::Unauthorized {}, err);
}

#[test]
fn end_to_end_scenario_should_works() {
    // a lottery priced at 100 units of D with two slots fills, draws by
    // cap, pays the full pool to the one winner, and only the winner can
    // withdraw it
    let env = mock_env();
    let msg = InstantiateMsg::new(
        "LOTTERY",
        "LOTTER",
        100,
        "D",
        "hour",
        1_700_000_000,
        WinnerSelection::Jackpot {},
        2,
        None,
    );
    let mut contract = instantiate(&env, &mock_info(owner(), vec![]), &msg).unwrap();

    contract
        .buy_ticket(&env, &mock_info(alice(), coins(100, "D")), "D", Some("m1".to_string()))
        .unwrap();
    contract
        .buy_ticket(&env, &mock_info(bob(), coins(100, "D")), "D", Some("m2".to_string()))
        .unwrap();
    assert_eq!(contract.current_state().state.player_count, 2);

    contract
        .draw_lottery(&env, &mock_info(owner(), vec![]), &coin(200, "D"))
        .unwrap();

    let state = contract.current_state().state;
    assert_eq!(state.status, GameStatus::Closed);
    assert_eq!(state.winner.len(), 1);
    let winner_addr = state.winner[0].address.clone();
    assert_eq!(state.winner[0].prize, coins(200, "D"));

    let loser = if winner_addr == alice() { bob() } else { alice() };

    // the non-winner has no claim
    let err = contract
        .claim_lottery(&mock_info(loser.clone(), vec![]), &winner_addr)
        .unwrap_err();
    assert_eq!(ContractError::Unauthorized {}, err);

    // the winner claims, then may withdraw the full pool
    contract
        .claim_lottery(&mock_info(winner_addr.clone(), vec![]), &winner_addr)
        .unwrap();
    let send = contract
        .withdraw(
            &mock_info(winner_addr.clone(), vec![]),
            200,
            "D",
            &coin(200, "D"),
            None,
        )
        .unwrap();
    assert_eq!(send.to_address, winner_addr);
    assert_eq!(send.amount, coins(200, "D"));

    // a third party cannot withdraw
    let err = contract
        .withdraw(&mock_info(loser, vec![]), 200, "D", &coin(200, "D"), None)
        .unwrap_err();
    assert_eq!(ContractError::Unauthorized {}, err);
}

#[test]
fn buy_ticket_guards_should_fail_in_order() {
    let env = mock_env();
    let mut contract = create(2);

    // no funds attached
    let err = contract
        .buy_ticket(&env, &mock_info(alice(), vec![]), ARCH_DEMON, None)
        .unwrap_err();
    assert_eq!(ContractError::PaymentError(PaymentError::NoFunds {}), err);

    // a zero amount counts as no funds
    let err = contract
        .buy_ticket(&env, &mock_info(alice(), coins(0, ARCH_DEMON)), ARCH_DEMON, None)
        .unwrap_err();
    assert_eq!(ContractError::PaymentError(PaymentError::NoFunds {}), err);

    // more than one denomination
    let err = contract
        .buy_ticket(
            &env,
            &mock_info(alice(), vec![coin(50, ARCH_DEMON), coin(50, "other")]),
            ARCH_DEMON,
            None,
        )
        .unwrap_err();
    assert_eq!(ContractError::PaymentError(PaymentError::MultipleDenoms {}), err);

    // the attached coin misses the requested denomination
    let err = contract
        .buy_ticket(&env, &mock_info(alice(), coins(100, "other")), ARCH_DEMON, None)
        .unwrap_err();
    assert_eq!(
        ContractError::PaymentError(PaymentError::MissingDenom(ARCH_DEMON.to_string())),
        err
    );

    // the requested denomination is not the configured one
    let err = contract
        .buy_ticket(&env, &mock_info(alice(), coins(100, "other")), "other", None)
        .unwrap_err();
    assert_eq!(ContractError::UnSupportedDenom { denom: "other".to_string() }, err);

    // underpayment
    let err = contract
        .buy_ticket(&env, &mock_info(alice(), coins(99, ARCH_DEMON)), ARCH_DEMON, None)
        .unwrap_err();
    assert_eq!(ContractError::PaymentNotEnough { amount: 99 }, err);

    // overpayment is accepted silently
    contract
        .buy_ticket(&env, &mock_info(alice(), coins(150, ARCH_DEMON)), ARCH_DEMON, None)
        .unwrap();
    assert_eq!(contract.current_state().state.player_count, 1);
}

#[test]
fn buy_ticket_rejects_double_buy() {
    let env = mock_env();
    let mut contract = create(3);

    contract
        .buy_ticket(&env, &mock_info(alice(), coins(100, ARCH_DEMON)), ARCH_DEMON, None)
        .unwrap();
    let err = contract
        .buy_ticket(&env, &mock_info(alice(), coins(100, ARCH_DEMON)), ARCH_DEMON, None)
        .unwrap_err();
    assert_eq!(ContractError::LotteryCanBuyOnce { player: alice() }, err);
    assert_eq!(contract.current_state().state.player_count, 1);
}

#[test]
fn buy_ticket_enforces_cap() {
    let env = mock_env();
    let mut contract = create(1);

    contract
        .buy_ticket(&env, &mock_info(alice(), coins(100, ARCH_DEMON)), ARCH_DEMON, None)
        .unwrap();

    // the cap error comes even with a correct payment
    let err = contract
        .buy_ticket(&env, &mock_info(bob(), coins(100, ARCH_DEMON)), ARCH_DEMON, None)
        .unwrap_err();
    assert_eq!(ContractError::PlayerExceededMaximum { max_players: 1 }, err);
}

#[test]
fn buy_ticket_rejects_expired_lottery() {
    let mut env = mock_env();
    let mut contract = create(3);

    env.time = Timestamp::from_seconds(1_700_000_001);
    let err = contract
        .buy_ticket(&env, &mock_info(alice(), coins(100, ARCH_DEMON)), ARCH_DEMON, None)
        .unwrap_err();
    assert_eq!(ContractError::AlreadyExpired {}, err);
}

#[test]
fn buy_ticket_rejects_early_height() {
    let mut env = mock_env();
    let mut contract = create(3);

    env.height = 12344;
    let err = contract
        .buy_ticket(&env, &mock_info(alice(), coins(100, ARCH_DEMON)), ARCH_DEMON, None)
        .unwrap_err();
    assert_eq!(
        ContractError::LotteryHeightNotMatch { current_height: 12344, lottery_height: 12345 },
        err
    );
}

#[test]
fn draw_lottery_requires_exhaustion() {
    let env = mock_env();
    let mut contract = create(3);

    contract
        .buy_ticket(&env, &mock_info(alice(), coins(100, ARCH_DEMON)), ARCH_DEMON, None)
        .unwrap();

    // under cap and before expiry: still active
    let err = contract
        .draw_lottery(&env, &mock_info(owner(), vec![]), &coin(100, ARCH_DEMON))
        .unwrap_err();
    assert_eq!(ContractError::LotteryIsActiving {}, err);

    // past expiry the draw is legal
    let mut late = mock_env();
    late.time = Timestamp::from_seconds(1_700_000_001);
    contract
        .draw_lottery(&late, &mock_info(owner(), vec![]), &coin(100, ARCH_DEMON))
        .unwrap();
    assert_eq!(contract.current_state().state.status, GameStatus::Closed);
}

#[test]
fn draw_lottery_closes_once() {
    let env = mock_env();
    let mut contract = create(1);

    contract
        .buy_ticket(&env, &mock_info(alice(), coins(100, ARCH_DEMON)), ARCH_DEMON, None)
        .unwrap();
    contract
        .draw_lottery(&env, &mock_info(owner(), vec![]), &coin(100, ARCH_DEMON))
        .unwrap();

    // a second draw fails on the closed status
    let err = contract
        .draw_lottery(&env, &mock_info(owner(), vec![]), &coin(100, ARCH_DEMON))
        .unwrap_err();
    assert_eq!(ContractError::LotteryAlreadyClosed {}, err);

    // no buy succeeds after the close
    let err = contract
        .buy_ticket(&env, &mock_info(bob(), coins(100, ARCH_DEMON)), ARCH_DEMON, None)
        .unwrap_err();
    assert_eq!(ContractError::PlayerExceededMaximum { max_players: 1 }, err);
}

#[test]
fn draw_lottery_with_no_players_records_no_winner() {
    let mut late = mock_env();
    late.time = Timestamp::from_seconds(1_700_000_001);
    let mut contract = create(3);

    contract
        .draw_lottery(&late, &mock_info(owner(), vec![]), &coin(0, ARCH_DEMON))
        .unwrap();
    let state = contract.current_state().state;
    assert_eq!(state.status, GameStatus::Closed);
    assert!(state.winner.is_empty());

    // with no winner recorded there is nothing to claim
    let err = contract
        .claim_lottery(&mock_info(alice(), vec![]), &alice())
        .unwrap_err();
    assert_eq!(ContractError::NothingToClaim {}, err);
}

#[test]
fn sole_participant_wins_unconditionally() {
    let env = mock_env();
    let mut contract = create(1);

    contract
        .buy_ticket(&env, &mock_info(alice(), coins(100, ARCH_DEMON)), ARCH_DEMON, None)
        .unwrap();
    contract
        .draw_lottery(&env, &mock_info(owner(), vec![]), &coin(100, ARCH_DEMON))
        .unwrap();

    let state = contract.current_state().state;
    assert_eq!(state.winner.len(), 1);
    assert_eq!(state.winner[0].address, alice());
    assert_eq!(state.winner[0].ticket_id, "1");
}

#[test]
fn choose_winner_infos_picks_in_range() {
    let env = mock_env();
    let mut contract = create(5);
    let buyers = [alice(), bob(), owner()];
    for b in buyers.iter() {
        contract
            .buy_ticket(&env, &mock_info(b.clone(), coins(100, ARCH_DEMON)), ARCH_DEMON, None)
            .unwrap();
    }
    let snapshot = contract.current_state().state;
    let winners = choose_winner_infos(&snapshot, &contract.players, 3).unwrap();
    assert_eq!(winners.len(), 1);
    assert!(buyers.contains(&winners[0].player_addr));
}

#[test]
fn transfer_moves_ownership() {
    let env = mock_env();
    let mut contract = create(3);

    let err = contract
        .transfer(&env, &mock_info(alice(), vec![]), bob())
        .unwrap_err();
    assert_eq!(ContractError::Unauthorized {}, err);

    contract.transfer(&env, &mock_info(owner(), vec![]), bob()).unwrap();
    assert_eq!(contract.owner().owner, bob());
}

#[test]
fn withdraw_checks_balance() {
    let contract = create(3);
    let err = contract
        .withdraw(
            &mock_info(owner(), vec![]),
            500,
            ARCH_DEMON,
            &coin(100, ARCH_DEMON),
            None,
        )
        .unwrap_err();
    assert_eq!(ContractError::BalanceTooSmall { balance: coin(100, ARCH_DEMON) }, err);
}

#[test]
fn ticket_indices_are_sequential() {
    let env = mock_env();
    let mut contract = create(5);
    for (i, buyer) in [alice(), bob(), owner()].into_iter().enumerate() {
        contract
            .buy_ticket(&env, &mock_info(buyer.clone(), coins(100, ARCH_DEMON)), ARCH_DEMON, None)
            .unwrap();
        let ticket = contract.play_info(&buyer).info.unwrap();
        assert_eq!(ticket.ticket_id, (i + 1).to_string());
    }
    assert_eq!(contract.current_state().state.player_count, 3);
}

#[test]
fn set_prizes_validation_should_works() {
    let contract = create(3);
    let state = contract.current_state().state;

    // not the owner
    let err =
        lottery::auth::validate_set_prizes(&state, &owner(), &mock_info(alice(), vec![]))
            .unwrap_err();
    assert_eq!(ContractError::Unauthorized {}, err);

    // the owner, but the lottery is not of the prize-list category
    let err =
        lottery::auth::validate_set_prizes(&state, &owner(), &mock_info(owner(), vec![]))
            .unwrap_err();
    assert_eq!(ContractError::InvalidCategory { value: "Normal ".to_string() }, err);
}
