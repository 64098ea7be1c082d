use vstd::prelude::*;

verus! {

/// Marketplace configuration, set once at instantiation and read-only
/// afterwards.
#[derive(Debug)]
pub struct Config {
    /// Identity that receives the platform cut of every trade.
    pub admin: String,
    /// Percentage of every trade's price paid to the platform, 0..=100.
    pub platform_fee_percent: u64,
    /// Unit price of a token with zero circulating supply.
    pub initial_price: u128,
    /// Steepness parameter of the price curve.
    pub price_increment_multiplier: u128,
}

/// One registered token: its immutable mint-time data and its circulating
/// supply, the only field that ever changes.
#[derive(Debug)]
pub struct TokenInfo {
    /// Identity that receives the royalty cut of every trade of this token.
    pub creator: String,
    /// Percentage of every trade's price paid to the creator, 0..=20.
    pub creator_royalty_percent: u64,
    /// Number of currently circulating units.
    pub supply: u128,
    pub name: String,
    pub backstory: String,
    pub image_url: String,
}

/// A quantity of one native denomination, as attached to a request.
#[derive(Debug)]
pub struct Coin {
    pub denom: String,
    pub amount: u128,
}

/// An outbound payment instruction, to be executed by the caller exactly once,
/// atomically with the state change that produced it and in the order emitted.
#[derive(Debug)]
pub struct Payment {
    pub to_address: String,
    pub amount: u128,
}

/// What a successful buy or sell settles: the trade price and the outbound
/// payments, in the order they must be executed.
#[derive(Debug)]
pub struct TradeOutcome {
    pub price: u128,
    pub payments: Vec<Payment>,
}

/// The whole durable state of the marketplace: the configuration singleton
/// and the dense token registry. A token's id is its index in `tokens`, so
/// ids start at 0, never repeat, and the next id to be handed out is always
/// the current number of tokens.
#[derive(Debug)]
pub struct MarketState {
    pub config: Config,
    pub tokens: Vec<TokenInfo>,
}

impl MarketState {
    /// Well-formedness: the bounds that instantiation and mint validate, and
    /// that every operation preserves. They keep the fee split free of
    /// underflow: no token's royalty plus the platform fee can exceed the
    /// whole price.
    pub open spec fn wf(self) -> bool {
        &&& self.config.platform_fee_percent <= 100
        &&& forall|i: int| 0 <= i < self.tokens@.len() ==> {
                &&& (#[trigger] self.tokens@[i]).creator_royalty_percent <= 20
                &&& self.tokens@[i].creator_royalty_percent + self.config.platform_fee_percent <= 100
            }
    }
}

} // verus!
