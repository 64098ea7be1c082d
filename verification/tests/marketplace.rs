use seilor_token::error::ContractError;
use seilor_token::msg::{ExecuteMsg, InstantiateMsg, QueryMsg};
use seilor_token::ops::{
    buy_precheck, execute, execute_buy, execute_mint, execute_sell, instantiate,
    market_well_formed, query, query_price, query_token_info, sell_precheck, ExecOutcome,
    QueryAnswer,
};
use seilor_token::state::{Coin, Config, MarketState, TokenInfo};

fn setup(fee: u64, initial: u128, mult: u128) -> MarketState {
    instantiate(
        "admin".to_string(),
        InstantiateMsg {
            platform_fee_percent: fee,
            initial_price: initial,
            price_increment_multiplier: mult,
        },
    )
    .unwrap()
}

fn usei(amount: u128) -> Vec<Coin> {
    vec![Coin { denom: "usei".to_string(), amount }]
}

fn mint(state: &mut MarketState, royalty: u64) -> Result<u64, ContractError> {
    execute_mint(
        state,
        "creator".to_string(),
        royalty,
        "Char".to_string(),
        "Story".to_string(),
        "img://char".to_string(),
    )
}

#[test]
fn instantiate_records_config() {
    let state = setup(5, 100, 1000);
    assert_eq!(state.config.admin, "admin");
    assert_eq!(state.config.platform_fee_percent, 5);
    assert_eq!(state.config.initial_price, 100);
    assert_eq!(state.config.price_increment_multiplier, 1000);
    assert_eq!(state.tokens.len(), 0);
    assert!(market_well_formed(&state));
}

#[test]
fn instantiate_rejects_fee_above_100() {
    let r = instantiate(
        "admin".to_string(),
        InstantiateMsg { platform_fee_percent: 101, initial_price: 1, price_increment_multiplier: 1 },
    );
    assert_eq!(r.unwrap_err(), ContractError::InvalidPlatformFeePercent);
}

#[test]
fn mint_royalty_21_rejected_and_allocates_no_id() {
    let mut state = setup(5, 100, 1000);
    let r = mint(&mut state, 21);
    assert_eq!(r.unwrap_err(), ContractError::InvalidRoyaltyPercent);
    assert_eq!(state.tokens.len(), 0);
    // the next successful mint still gets id 0
    assert_eq!(mint(&mut state, 20).unwrap(), 0);
}

#[test]
fn mint_rejects_fee_plus_royalty_above_100() {
    let mut state = setup(95, 100, 1000);
    assert_eq!(mint(&mut state, 6).unwrap_err(), ContractError::FeeAndRoyaltyTooHigh);
    assert_eq!(state.tokens.len(), 0);
    // at exactly 100 the split is still whole
    assert_eq!(mint(&mut state, 5).unwrap(), 0);
}

#[test]
fn mint_registers_record() {
    let mut state = setup(5, 100, 1000);
    let id = mint(&mut state, 10).unwrap();
    assert_eq!(id, 0);
    let tok = query_token_info(&state, 0).unwrap();
    assert_eq!(tok.creator, "creator");
    assert_eq!(tok.creator_royalty_percent, 10);
    assert_eq!(tok.supply, 0);
    assert_eq!(tok.name, "Char");
    assert_eq!(tok.backstory, "Story");
    assert_eq!(tok.image_url, "img://char");
}

#[test]
fn mint_ids_are_sequential_across_trades() {
    let mut state = setup(5, 100, 1000);
    assert_eq!(mint(&mut state, 10).unwrap(), 0);
    assert_eq!(mint(&mut state, 0).unwrap(), 1);
    execute_buy(&mut state, &usei(100), 0).unwrap();
    execute_sell(&mut state, "seller".to_string(), 0).unwrap();
    assert_eq!(mint(&mut state, 3).unwrap(), 2);
    assert_eq!(state.tokens.len(), 3);
}

#[test]
fn buy_at_zero_supply_splits_initial_price() {
    let mut state = setup(5, 100, 1000);
    mint(&mut state, 10).unwrap();
    assert!(buy_precheck(&state, &usei(100), 0));
    let out = execute_buy(&mut state, &usei(100), 0).unwrap();
    assert_eq!(out.price, 100);
    assert_eq!(out.payments.len(), 2);
    assert_eq!(out.payments[0].to_address, "admin");
    assert_eq!(out.payments[0].amount, 5);
    assert_eq!(out.payments[1].to_address, "creator");
    assert_eq!(out.payments[1].amount, 85);
    assert_eq!(query_token_info(&state, 0).unwrap().supply, 1);
}

#[test]
fn buy_overpayment_is_not_refunded() {
    let mut state = setup(5, 100, 1000);
    mint(&mut state, 10).unwrap();
    let out = execute_buy(&mut state, &usei(150), 0).unwrap();
    // the settlement is computed from the price, not from the amount attached
    assert_eq!(out.price, 100);
    assert_eq!(out.payments[0].amount, 5);
    assert_eq!(out.payments[1].amount, 85);
}

#[test]
fn buy_insufficient_funds_leaves_state_unchanged() {
    let mut state = setup(5, 100, 1000);
    mint(&mut state, 10).unwrap();
    let r = execute_buy(&mut state, &usei(99), 0);
    assert_eq!(r.unwrap_err(), ContractError::InsufficientFunds);
    assert_eq!(state.tokens.len(), 1);
    assert_eq!(query_token_info(&state, 0).unwrap().supply, 0);
}

#[test]
fn buy_without_settlement_coin_fails() {
    let mut state = setup(5, 100, 1000);
    mint(&mut state, 10).unwrap();
    let none: Vec<Coin> = vec![];
    assert_eq!(execute_buy(&mut state, &none, 0).unwrap_err(), ContractError::NoFundsSent);
    let other = vec![Coin { denom: "uatom".to_string(), amount: 500 }];
    assert_eq!(execute_buy(&mut state, &other, 0).unwrap_err(), ContractError::NoFundsSent);
    assert_eq!(query_token_info(&state, 0).unwrap().supply, 0);
}

#[test]
fn buy_takes_first_settlement_coin() {
    let mut state = setup(5, 100, 1000);
    mint(&mut state, 10).unwrap();
    // the first usei coin is short, even though a later one would cover
    let funds = vec![
        Coin { denom: "usei".to_string(), amount: 50 },
        Coin { denom: "usei".to_string(), amount: 200 },
    ];
    assert_eq!(execute_buy(&mut state, &funds, 0).unwrap_err(), ContractError::InsufficientFunds);
    // coins in other denominations before it are skipped
    let mixed = vec![
        Coin { denom: "uatom".to_string(), amount: 1 },
        Coin { denom: "usei".to_string(), amount: 100 },
    ];
    let out = execute_buy(&mut state, &mixed, 0).unwrap();
    assert_eq!(out.price, 100);
}

#[test]
fn buy_unknown_token_fails() {
    let mut state = setup(5, 100, 1000);
    assert_eq!(execute_buy(&mut state, &usei(100), 0).unwrap_err(), ContractError::TokenNotFound);
    mint(&mut state, 10).unwrap();
    assert_eq!(execute_buy(&mut state, &usei(100), 1).unwrap_err(), ContractError::TokenNotFound);
}

#[test]
fn sell_pays_price_at_one_less_supply() {
    let mut state = setup(5, 100, 1000);
    mint(&mut state, 10).unwrap();
    execute_buy(&mut state, &usei(100), 0).unwrap();
    assert!(sell_precheck(&state, 0));
    let out = execute_sell(&mut state, "seller".to_string(), 0).unwrap();
    assert_eq!(out.price, 100);
    assert_eq!(out.payments.len(), 1);
    assert_eq!(out.payments[0].to_address, "seller");
    assert_eq!(out.payments[0].amount, 85);
    assert_eq!(query_token_info(&state, 0).unwrap().supply, 0);
}

#[test]
fn sell_with_no_supply_fails_unchanged() {
    let mut state = setup(5, 100, 1000);
    mint(&mut state, 10).unwrap();
    let r = execute_sell(&mut state, "seller".to_string(), 0);
    assert_eq!(r.unwrap_err(), ContractError::NoTokensToSell);
    assert_eq!(state.tokens.len(), 1);
    assert_eq!(query_token_info(&state, 0).unwrap().supply, 0);
}

#[test]
fn sell_unknown_token_fails() {
    let mut state = setup(5, 100, 1000);
    let r = execute_sell(&mut state, "seller".to_string(), 7);
    assert_eq!(r.unwrap_err(), ContractError::TokenNotFound);
}

#[test]
fn query_price_follows_supply() {
    let mut state = setup(5, 100, 1000);
    mint(&mut state, 10).unwrap();
    assert_eq!(query_price(&state, 0).unwrap().price, 100);
    execute_buy(&mut state, &usei(100), 0).unwrap();
    // 1 * 1 * 1000 / (1 * 1000) = 1
    assert_eq!(query_price(&state, 0).unwrap().price, 101);
    assert_eq!(query_price(&state, 9).unwrap_err(), ContractError::TokenNotFound);
}

#[test]
fn query_dispatches_both_requests() {
    let mut state = setup(5, 100, 1000);
    mint(&mut state, 10).unwrap();
    let priced = query(&state, QueryMsg::GetPrice { token_id: 0, amount: 1 }).unwrap();
    match priced {
        QueryAnswer::Price(p) => assert_eq!(p.price, 100),
        other => panic!("expected a price answer, got {:?}", other),
    }
    let info = query(&state, QueryMsg::GetTokenInfo { token_id: 0 }).unwrap();
    match info {
        QueryAnswer::Info(t) => assert_eq!(t.name, "Char"),
        other => panic!("expected a token info answer, got {:?}", other),
    }
    let missing = query(&state, QueryMsg::GetTokenInfo { token_id: 3 });
    assert_eq!(missing.unwrap_err(), ContractError::TokenNotFound);
}

#[test]
fn query_token_info_unknown_token() {
    let state = setup(5, 100, 1000);
    assert_eq!(query_token_info(&state, 0).unwrap_err(), ContractError::TokenNotFound);
}

#[test]
fn execute_dispatches_all_operations() {
    let mut state = setup(5, 100, 1000);
    let minted = execute(
        &mut state,
        "creator".to_string(),
        &vec![],
        ExecuteMsg::Mint {
            creator_royalty_percent: 10,
            name: "Char".to_string(),
            backstory: "Story".to_string(),
            image_url: "img://char".to_string(),
        },
    )
    .unwrap();
    match minted {
        ExecOutcome::Minted { token_id } => assert_eq!(token_id, 0),
        other => panic!("expected a mint outcome, got {:?}", other),
    }
    let bought = execute(
        &mut state,
        "buyer".to_string(),
        &usei(100),
        ExecuteMsg::Buy { token_id: 0 },
    )
    .unwrap();
    match bought {
        ExecOutcome::Traded(out) => {
            assert_eq!(out.price, 100);
            assert_eq!(out.payments.len(), 2);
        },
        other => panic!("expected a trade outcome, got {:?}", other),
    }
    let sold = execute(
        &mut state,
        "buyer".to_string(),
        &vec![],
        ExecuteMsg::Sell { token_id: 0 },
    )
    .unwrap();
    match sold {
        ExecOutcome::Traded(out) => {
            assert_eq!(out.payments[0].to_address, "buyer");
            assert_eq!(out.payments[0].amount, 85);
        },
        other => panic!("expected a trade outcome, got {:?}", other),
    }
}

#[test]
fn prechecks_reject_overflowing_states() {
    let token = TokenInfo {
        creator: "creator".to_string(),
        creator_royalty_percent: 10,
        supply: 5,
        name: "Char".to_string(),
        backstory: "Story".to_string(),
        image_url: "img://char".to_string(),
    };
    let state = MarketState {
        config: Config {
            admin: "admin".to_string(),
            platform_fee_percent: 5,
            initial_price: 0,
            price_increment_multiplier: u128::MAX,
        },
        tokens: vec![token],
    };
    // 25 * u128::MAX and 16 * u128::MAX both overflow
    assert!(market_well_formed(&state));
    assert!(!buy_precheck(&state, &usei(100), 0));
    assert!(!sell_precheck(&state, 0));
    // a token the state does not hold needs no arithmetic at all
    assert!(buy_precheck(&state, &usei(100), 1));
    assert!(sell_precheck(&state, 1));
}

#[test]
fn well_formedness_checks_bounds() {
    let mut state = setup(5, 100, 1000);
    mint(&mut state, 10).unwrap();
    assert!(market_well_formed(&state));
    state.tokens[0].creator_royalty_percent = 50;
    assert!(!market_well_formed(&state));
    let bad_fee = MarketState {
        config: Config {
            admin: "admin".to_string(),
            platform_fee_percent: 101,
            initial_price: 1,
            price_increment_multiplier: 1,
        },
        tokens: vec![],
    };
    assert!(!market_well_formed(&bad_fee));
}
