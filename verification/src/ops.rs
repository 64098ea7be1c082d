use vstd::prelude::*;

use crate::error::ContractError;
use crate::fees::{settlement_fits, spec_cut, split};
use crate::msg::{ExecuteMsg, GetPriceResponse, InstantiateMsg, QueryMsg};
use crate::pricing::{get_price, price_computable, price_fits, spec_price};
use crate::state::{Coin, Config, MarketState, Payment, TokenInfo, TradeOutcome};

verus! {

/// The only denomination the marketplace settles in.
pub open spec fn payment_denom() -> Seq<char> {
    "usei"@
}

/// The settlement denomination as an owned string.
pub fn payment_denom_string() -> (s: String)
    ensures
        s@ == payment_denom(),
{
    "usei".to_owned()
}

/// `funds[i]` is the coin a buy draws on: the first attached coin in the
/// settlement denomination.
pub open spec fn is_first_payment_coin(funds: Seq<Coin>, i: int) -> bool {
    &&& 0 <= i < funds.len()
    &&& funds[i].denom@ == payment_denom()
    &&& forall|j: int| 0 <= j < i ==> (#[trigger] funds[j]).denom@ != payment_denom()
}

/// Some attached coin is in the settlement denomination.
pub open spec fn has_payment_coin(funds: Seq<Coin>) -> bool {
    exists|i: int| is_first_payment_coin(funds, i)
}

/// The attached funds cover the given price with their first coin in the
/// settlement denomination.
pub open spec fn payment_covers(funds: Seq<Coin>, price: int) -> bool {
    exists|i: int| is_first_payment_coin(funds, i) && price <= funds[i].amount
}

/// At most one coin is "the first" in the settlement denomination.
pub proof fn lemma_first_payment_unique(funds: Seq<Coin>, i: int, j: int)
    requires
        is_first_payment_coin(funds, i),
        is_first_payment_coin(funds, j),
    ensures
        i == j,
{
}

/// Index of the first attached coin in the settlement denomination, if any.
fn find_payment_coin(funds: &Vec<Coin>) -> (r: Option<usize>)
    ensures
        (match r {
            Some(i) => is_first_payment_coin(funds@, i as int),
            None => !has_payment_coin(funds@),
        }),
{
    let target = payment_denom_string();
    let mut i: usize = 0;
    while i < funds.len()
        invariant
            i <= funds@.len(),
            target@ == payment_denom(),
            forall|j: int| 0 <= j < i ==> (#[trigger] funds@[j]).denom@ != payment_denom(),
        decreases funds@.len() - i,
    {
        if funds[i].denom == target {
            return Some(i);
        }
        i = i + 1;
    }
    None
}

/// Sets up the marketplace: records the instantiating identity as the admin
/// beside the curve parameters, with no token yet registered. Rejects a
/// platform fee above 100 percent, which could not be taken out of a price.
pub fn instantiate(sender: String, msg: InstantiateMsg) -> (r: Result<MarketState, ContractError>)
    ensures
        msg.platform_fee_percent <= 100 ==> {
            &&& r is Ok
            &&& r->Ok_0.wf()
            &&& r->Ok_0.config.admin == sender
            &&& r->Ok_0.config.platform_fee_percent == msg.platform_fee_percent
            &&& r->Ok_0.config.initial_price == msg.initial_price
            &&& r->Ok_0.config.price_increment_multiplier == msg.price_increment_multiplier
            &&& r->Ok_0.tokens@.len() == 0
        },
        msg.platform_fee_percent > 100 ==> {
            &&& r is Err
            &&& r->Err_0 == ContractError::InvalidPlatformFeePercent
        },
{
    if msg.platform_fee_percent > 100 {
        return Err(ContractError::InvalidPlatformFeePercent);
    }
    let config = Config {
        admin: sender,
        platform_fee_percent: msg.platform_fee_percent,
        initial_price: msg.initial_price,
        price_increment_multiplier: msg.price_increment_multiplier,
    };
    Ok(MarketState { config, tokens: Vec::new() })
}

/// The number of tokens ever minted is the next id to be handed out: ids are
/// dense, start at 0, and are never reused.
pub open spec fn spec_next_token_id(tokens: Seq<TokenInfo>) -> int {
    tokens.len() as int
}

/// Id allocation is strictly sequential: registering one token advances the
/// next id by exactly one, and nothing else moves it (buys and sells keep the
/// token count, as their contracts state).
pub proof fn lemma_token_ids_sequential(tokens: Seq<TokenInfo>, tok: TokenInfo)
    ensures
        spec_next_token_id(tokens.push(tok)) == spec_next_token_id(tokens) + 1,
{
}

/// Everything `execute_mint` promises, relating the state before and after
/// the call to its result.
pub open spec fn mint_post(
    pre: MarketState,
    post: MarketState,
    sender: String,
    creator_royalty_percent: u64,
    name: String,
    backstory: String,
    image_url: String,
    r: Result<u64, ContractError>,
) -> bool {
    if creator_royalty_percent > 20 {
        &&& r is Err
        &&& r->Err_0 == ContractError::InvalidRoyaltyPercent
        &&& post == pre
    } else if pre.config.platform_fee_percent + creator_royalty_percent > 100 {
        &&& r is Err
        &&& r->Err_0 == ContractError::FeeAndRoyaltyTooHigh
        &&& post == pre
    } else {
        &&& r is Ok
        &&& r->Ok_0 as int == spec_next_token_id(pre.tokens@)
        &&& post.config == pre.config
        &&& post.tokens@ == pre.tokens@.push(TokenInfo {
            creator: sender,
            creator_royalty_percent,
            supply: 0,
            name,
            backstory,
            image_url,
        })
    }
}

/// Mints a new token: validates the royalty bound and the fee split, allocates
/// the next sequential id, and registers the record with zero supply. The
/// metadata and the creator are fixed for good; only the supply of the new
/// record will ever change.
pub fn execute_mint(
    state: &mut MarketState,
    sender: String,
    creator_royalty_percent: u64,
    name: String,
    backstory: String,
    image_url: String,
) -> (r: Result<u64, ContractError>)
    ensures
        mint_post(
            *old(state),
            *final(state),
            sender,
            creator_royalty_percent,
            name,
            backstory,
            image_url,
            r,
        ),
        old(state).wf() ==> final(state).wf(),
{
    if creator_royalty_percent > 20 {
        return Err(ContractError::InvalidRoyaltyPercent);
    }
    if state.config.platform_fee_percent > 100 - creator_royalty_percent {
        return Err(ContractError::FeeAndRoyaltyTooHigh);
    }
    let token_id = state.tokens.len() as u64;
    let token = TokenInfo {
        creator: sender,
        creator_royalty_percent,
        supply: 0,
        name,
        backstory,
        image_url,
    };
    state.tokens.push(token);
    Ok(token_id)
}

/// The price a buy of this token settles at: the curve price at its current
/// supply.
pub open spec fn spec_buy_price(pre: MarketState, token_id: u64) -> int {
    spec_price(
        pre.tokens@[token_id as int].supply,
        pre.config.initial_price,
        pre.config.price_increment_multiplier,
    )
}

/// What a buy needs of the machine arithmetic (and of the state's
/// well-formedness): the price computation fits whenever the token exists, and
/// the settlement fits whenever the funds check would pass and the trade
/// proceed.
pub open spec fn buy_requires(pre: MarketState, funds: Seq<Coin>, token_id: u64) -> bool {
    &&& pre.wf()
    &&& token_id < pre.tokens@.len() ==> price_fits(
        pre.tokens@[token_id as int].supply,
        pre.config.initial_price,
        pre.config.price_increment_multiplier,
    )
    &&& (token_id < pre.tokens@.len() && payment_covers(funds, spec_buy_price(pre, token_id)))
        ==> {
        &&& settlement_fits(
            spec_buy_price(pre, token_id),
            pre.config.platform_fee_percent,
            pre.tokens@[token_id as int].creator_royalty_percent,
        )
        &&& pre.tokens@[token_id as int].supply < u128::MAX
    }
}

/// Everything `execute_buy` promises, relating the state before and after the
/// call to its result.
pub open spec fn buy_post(
    pre: MarketState,
    post: MarketState,
    funds: Seq<Coin>,
    token_id: u64,
    r: Result<TradeOutcome, ContractError>,
) -> bool {
    if token_id >= pre.tokens@.len() {
        &&& r is Err
        &&& r->Err_0 == ContractError::TokenNotFound
        &&& post == pre
    } else {
        let tok = pre.tokens@[token_id as int];
        let price = spec_buy_price(pre, token_id);
        let platform = spec_cut(price, pre.config.platform_fee_percent as int);
        let creator_cut = spec_cut(price, tok.creator_royalty_percent as int);
        if !has_payment_coin(funds) {
            &&& r is Err
            &&& r->Err_0 == ContractError::NoFundsSent
            &&& post == pre
        } else if !payment_covers(funds, price) {
            &&& r is Err
            &&& r->Err_0 == ContractError::InsufficientFunds
            &&& post == pre
        } else {
            &&& r is Ok
            &&& r->Ok_0.price == price
            &&& r->Ok_0.payments@.len() == 2
            &&& r->Ok_0.payments@[0].to_address == pre.config.admin
            &&& r->Ok_0.payments@[0].amount == platform
            &&& r->Ok_0.payments@[1].to_address == tok.creator
            &&& r->Ok_0.payments@[1].amount == price - platform - creator_cut
            &&& post.config == pre.config
            &&& post.tokens@ == pre.tokens@.update(
                token_id as int,
                (TokenInfo { supply: (tok.supply + 1) as u128, ..tok }),
            )
        }
    }
}

/// Buys one unit of a token against the curve: the buyer must attach at least
/// the current price in the settlement denomination. The price is split and
/// paid out as two instructions, platform cut first; whatever the buyer
/// attached beyond royalty and platform fee is credited to the creator, not
/// refunded. The supply rises by one.
pub fn execute_buy(state: &mut MarketState, funds: &Vec<Coin>, token_id: u64) -> (r: Result<
    TradeOutcome,
    ContractError,
>)
    requires
        buy_requires(*old(state), funds@, token_id),
    ensures
        buy_post(*old(state), *final(state), funds@, token_id, r),
        final(state).wf(),
        final(state).tokens@.len() == old(state).tokens@.len(),
{
    if token_id >= state.tokens.len() as u64 {
        return Err(ContractError::TokenNotFound);
    }
    let idx = token_id as usize;
    let supply = state.tokens[idx].supply;
    let royalty = state.tokens[idx].creator_royalty_percent;
    let price = get_price(supply, &state.config);
    let coin_index = match find_payment_coin(funds) {
        None => {
            return Err(ContractError::NoFundsSent);
        },
        Some(ci) => ci,
    };
    if funds[coin_index].amount < price {
        proof {
            if payment_covers(funds@, price as int) {
                let k = choose|k: int|
                    is_first_payment_coin(funds@, k) && price <= funds@[k].amount;
                lemma_first_payment_unique(funds@, k, coin_index as int);
            }
        }
        return Err(ContractError::InsufficientFunds);
    }
    let (platform_cut, creator_cut, _remainder) = split(
        price,
        state.config.platform_fee_percent,
        royalty,
    );
    let creator_payment = price - platform_cut - creator_cut;
    let mut payments: Vec<Payment> = Vec::new();
    payments.push(Payment { to_address: state.config.admin.clone(), amount: platform_cut });
    payments.push(
        Payment { to_address: state.tokens[idx].creator.clone(), amount: creator_payment },
    );
    let token = &mut state.tokens[idx];
    token.supply = supply + 1;
    Ok(TradeOutcome { price, payments })
}

/// What a sell needs of the machine arithmetic (and of the state's
/// well-formedness): the price and settlement computations at one unit less
/// fit whenever the sell would proceed.
pub open spec fn sell_requires(pre: MarketState, token_id: u64) -> bool {
    &&& pre.wf()
    &&& (token_id < pre.tokens@.len() && pre.tokens@[token_id as int].supply >= 1) ==> {
        let supply_before = (pre.tokens@[token_id as int].supply - 1) as u128;
        &&& price_fits(
            supply_before,
            pre.config.initial_price,
            pre.config.price_increment_multiplier,
        )
        &&& settlement_fits(
            spec_price(
                supply_before,
                pre.config.initial_price,
                pre.config.price_increment_multiplier,
            ),
            pre.config.platform_fee_percent,
            pre.tokens@[token_id as int].creator_royalty_percent,
        )
    }
}

/// Everything `execute_sell` promises, relating the state before and after
/// the call to its result.
pub open spec fn sell_post(
    pre: MarketState,
    post: MarketState,
    sender: String,
    token_id: u64,
    r: Result<TradeOutcome, ContractError>,
) -> bool {
    if token_id >= pre.tokens@.len() {
        &&& r is Err
        &&& r->Err_0 == ContractError::TokenNotFound
        &&& post == pre
    } else if pre.tokens@[token_id as int].supply == 0 {
        &&& r is Err
        &&& r->Err_0 == ContractError::NoTokensToSell
        &&& post == pre
    } else {
        let tok = pre.tokens@[token_id as int];
        let price = spec_price(
            (tok.supply - 1) as u128,
            pre.config.initial_price,
            pre.config.price_increment_multiplier,
        );
        let platform = spec_cut(price, pre.config.platform_fee_percent as int);
        let creator_cut = spec_cut(price, tok.creator_royalty_percent as int);
        &&& r is Ok
        &&& r->Ok_0.price == price
        &&& r->Ok_0.payments@.len() == 1
        &&& r->Ok_0.payments@[0].to_address == sender
        &&& r->Ok_0.payments@[0].amount == price - platform - creator_cut
        &&& post.config == pre.config
        &&& post.tokens@ == pre.tokens@.update(
            token_id as int,
            (TokenInfo { supply: (tok.supply - 1) as u128, ..tok }),
        )
    }
}

/// Sells one unit of a token back to the curve: the price is the one the
/// supply's last unit was bought at (the curve price at `supply - 1`). The
/// platform fee and the creator royalty are still deducted, and the seller is
/// credited the remainder in a single payment instruction. The supply falls by
/// one. No per-holder balance is tracked, so the caller's holding is not
/// checked.
pub fn execute_sell(state: &mut MarketState, sender: String, token_id: u64) -> (r: Result<
    TradeOutcome,
    ContractError,
>)
    requires
        sell_requires(*old(state), token_id),
    ensures
        sell_post(*old(state), *final(state), sender, token_id, r),
        final(state).wf(),
        final(state).tokens@.len() == old(state).tokens@.len(),
{
    if token_id >= state.tokens.len() as u64 {
        return Err(ContractError::TokenNotFound);
    }
    let idx = token_id as usize;
    let supply = state.tokens[idx].supply;
    let royalty = state.tokens[idx].creator_royalty_percent;
    if supply == 0 {
        return Err(ContractError::NoTokensToSell);
    }
    let price = get_price(supply - 1, &state.config);
    let (platform_cut, creator_cut, _remainder) = split(
        price,
        state.config.platform_fee_percent,
        royalty,
    );
    let seller_payment = price - platform_cut - creator_cut;
    let mut payments: Vec<Payment> = Vec::new();
    payments.push(Payment { to_address: sender, amount: seller_payment });
    let token = &mut state.tokens[idx];
    token.supply = supply - 1;
    Ok(TradeOutcome { price, payments })
}

/// Current unit price of a token, as a read-only projection.
pub fn query_price(state: &MarketState, token_id: u64) -> (r: Result<
    GetPriceResponse,
    ContractError,
>)
    requires
        token_id < state.tokens@.len() ==> price_fits(
            state.tokens@[token_id as int].supply,
            state.config.initial_price,
            state.config.price_increment_multiplier,
        ),
    ensures
        token_id < state.tokens@.len() ==> {
            &&& r is Ok
            &&& r->Ok_0.price == spec_buy_price(*state, token_id)
        },
        token_id >= state.tokens@.len() ==> {
            &&& r is Err
            &&& r->Err_0 == ContractError::TokenNotFound
        },
{
    if token_id >= state.tokens.len() as u64 {
        return Err(ContractError::TokenNotFound);
    }
    let idx = token_id as usize;
    let price = get_price(state.tokens[idx].supply, &state.config);
    Ok(GetPriceResponse { price })
}

/// A token's record, as a read-only projection.
pub fn query_token_info(state: &MarketState, token_id: u64) -> (r: Result<
    &TokenInfo,
    ContractError,
>)
    ensures
        token_id < state.tokens@.len() ==> {
            &&& r is Ok
            &&& *r->Ok_0 == state.tokens@[token_id as int]
        },
        token_id >= state.tokens@.len() ==> {
            &&& r is Err
            &&& r->Err_0 == ContractError::TokenNotFound
        },
{
    if token_id >= state.tokens.len() as u64 {
        return Err(ContractError::TokenNotFound);
    }
    let idx = token_id as usize;
    Ok(&state.tokens[idx])
}

/// Answer to a read-only request.
#[derive(Debug)]
pub enum QueryAnswer<'a> {
    Price(GetPriceResponse),
    Info(&'a TokenInfo),
}

/// Dispatches one read-only request against the same ledger snapshot the
/// state-changing operations use.
pub fn query<'a>(state: &'a MarketState, msg: QueryMsg) -> (r: Result<
    QueryAnswer<'a>,
    ContractError,
>)
    requires
        msg matches QueryMsg::GetPrice { token_id, amount } ==> (token_id
            < state.tokens@.len() ==> price_fits(
            state.tokens@[token_id as int].supply,
            state.config.initial_price,
            state.config.price_increment_multiplier,
        )),
    ensures
        (match msg {
            QueryMsg::GetPrice { token_id, amount } => {
                &&& (token_id < state.tokens@.len() ==> (r is Ok
                    && (r->Ok_0 matches QueryAnswer::Price(p)
                    && p.price == spec_buy_price(*state, token_id))))
                &&& (token_id >= state.tokens@.len() ==> (r is Err
                    && r->Err_0 == ContractError::TokenNotFound))
            },
            QueryMsg::GetTokenInfo { token_id } => {
                &&& (token_id < state.tokens@.len() ==> (r is Ok
                    && (r->Ok_0 matches QueryAnswer::Info(t)
                    && *t == state.tokens@[token_id as int])))
                &&& (token_id >= state.tokens@.len() ==> (r is Err
                    && r->Err_0 == ContractError::TokenNotFound))
            },
        }),
{
    match msg {
        QueryMsg::GetPrice { token_id, amount: _ } => {
            // the amount is unused: every quote is for a single unit
            match query_price(state, token_id) {
                Ok(p) => Ok(QueryAnswer::Price(p)),
                Err(e) => Err(e),
            }
        },
        QueryMsg::GetTokenInfo { token_id } => {
            match query_token_info(state, token_id) {
                Ok(t) => Ok(QueryAnswer::Info(t)),
                Err(e) => Err(e),
            }
        },
    }
}

/// Executable test of `MarketState::wf`, so an unverified caller can validate
/// a state it reassembled from storage.
pub fn market_well_formed(state: &MarketState) -> (b: bool)
    ensures
        b == state.wf(),
{
    if state.config.platform_fee_percent > 100 {
        return false;
    }
    let n = state.tokens.len();
    let mut i: usize = 0;
    while i < n
        invariant
            n == state.tokens@.len(),
            i <= n,
            state.config.platform_fee_percent <= 100,
            forall|k: int| 0 <= k < i ==> {
                &&& (#[trigger] state.tokens@[k]).creator_royalty_percent <= 20
                &&& state.tokens@[k].creator_royalty_percent + state.config.platform_fee_percent
                    <= 100
            },
        decreases n - i,
    {
        let royalty = state.tokens[i].creator_royalty_percent;
        if royalty > 20 {
            return false;
        }
        if state.config.platform_fee_percent > 100 - royalty {
            return false;
        }
        i = i + 1;
    }
    true
}

/// Executable test of `buy_requires`, so an unverified caller can reject a
/// buy whose settlement arithmetic would overflow before attempting it.
pub fn buy_precheck(state: &MarketState, funds: &Vec<Coin>, token_id: u64) -> (b: bool)
    ensures
        b == buy_requires(*state, funds@, token_id),
{
    if !market_well_formed(state) {
        return false;
    }
    if token_id >= state.tokens.len() as u64 {
        return true;
    }
    let idx = token_id as usize;
    let supply = state.tokens[idx].supply;
    if !price_computable(supply, &state.config) {
        return false;
    }
    let price = get_price(supply, &state.config);
    let covers = match find_payment_coin(funds) {
        None => false,
        Some(ci) => {
            proof {
                if payment_covers(funds@, price as int) && funds@[ci as int].amount < price {
                    let k = choose|k: int|
                        is_first_payment_coin(funds@, k) && price <= funds@[k].amount;
                    lemma_first_payment_unique(funds@, k, ci as int);
                }
            }
            funds[ci].amount >= price
        },
    };
    if !covers {
        return true;
    }
    let fee_ok = price.checked_mul(state.config.platform_fee_percent as u128).is_some();
    let royalty_ok = price.checked_mul(
        state.tokens[idx].creator_royalty_percent as u128,
    ).is_some();
    fee_ok && royalty_ok && supply < u128::MAX
}

/// Executable test of `sell_requires`, the same service for a sell.
pub fn sell_precheck(state: &MarketState, token_id: u64) -> (b: bool)
    ensures
        b == sell_requires(*state, token_id),
{
    if !market_well_formed(state) {
        return false;
    }
    if token_id >= state.tokens.len() as u64 {
        return true;
    }
    let idx = token_id as usize;
    let supply = state.tokens[idx].supply;
    if supply == 0 {
        return true;
    }
    let supply_before = supply - 1;
    if !price_computable(supply_before, &state.config) {
        return false;
    }
    let price = get_price(supply_before, &state.config);
    let fee_ok = price.checked_mul(state.config.platform_fee_percent as u128).is_some();
    let royalty_ok = price.checked_mul(
        state.tokens[idx].creator_royalty_percent as u128,
    ).is_some();
    fee_ok && royalty_ok
}

/// What a successful operation hands back to the dispatcher.
#[derive(Debug)]
pub enum ExecOutcome {
    /// A mint: the id the new token was registered under.
    Minted { token_id: u64 },
    /// A buy or a sell: the settled trade.
    Traded(TradeOutcome),
}

/// Dispatches one inbound operation to the matching state transition, handing
/// it the single calling identity and the attached funds.
pub fn execute(state: &mut MarketState, sender: String, funds: &Vec<Coin>, msg: ExecuteMsg) -> (r:
    Result<ExecOutcome, ContractError>)
    requires
        old(state).wf(),
        msg matches ExecuteMsg::Buy { token_id } ==> buy_requires(*old(state), funds@, token_id),
        msg matches ExecuteMsg::Sell { token_id } ==> sell_requires(*old(state), token_id),
    ensures
        final(state).wf(),
        (match msg {
            ExecuteMsg::Mint { creator_royalty_percent, name, backstory, image_url } => {
                &&& (r is Ok ==> (r->Ok_0 matches ExecOutcome::Minted { token_id }
                    && mint_post(
                    *old(state),
                    *final(state),
                    sender,
                    creator_royalty_percent,
                    name,
                    backstory,
                    image_url,
                    Ok(token_id),
                )))
                &&& (r is Err ==> mint_post(
                    *old(state),
                    *final(state),
                    sender,
                    creator_royalty_percent,
                    name,
                    backstory,
                    image_url,
                    Err(r->Err_0),
                ))
            },
            ExecuteMsg::Buy { token_id } => {
                &&& (r is Ok ==> (r->Ok_0 matches ExecOutcome::Traded(out) && buy_post(
                    *old(state),
                    *final(state),
                    funds@,
                    token_id,
                    Ok(out),
                )))
                &&& (r is Err ==> buy_post(*old(state), *final(state), funds@, token_id, Err(r->Err_0)))
            },
            ExecuteMsg::Sell { token_id } => {
                &&& (r is Ok ==> (r->Ok_0 matches ExecOutcome::Traded(out) && sell_post(
                    *old(state),
                    *final(state),
                    sender,
                    token_id,
                    Ok(out),
                )))
                &&& (r is Err ==> sell_post(
                    *old(state),
                    *final(state),
                    sender,
                    token_id,
                    Err(r->Err_0),
                ))
            },
        }),
{
    match msg {
        ExecuteMsg::Mint { creator_royalty_percent, name, backstory, image_url } => {
            match execute_mint(state, sender, creator_royalty_percent, name, backstory, image_url) {
                Ok(token_id) => Ok(ExecOutcome::Minted { token_id }),
                Err(e) => Err(e),
            }
        },
        ExecuteMsg::Buy { token_id } => {
            match execute_buy(state, funds, token_id) {
                Ok(out) => Ok(ExecOutcome::Traded(out)),
                Err(e) => Err(e),
            }
        },
        ExecuteMsg::Sell { token_id } => {
            match execute_sell(state, sender, token_id) {
                Ok(out) => Ok(ExecOutcome::Traded(out)),
                Err(e) => Err(e),
            }
        },
    }
}

} // verus!
