use vstd::prelude::*;

verus! {

/// Parameters fixed at instantiation. The instantiating identity becomes the
/// admin that receives every platform cut.
#[derive(Debug)]
pub struct InstantiateMsg {
    pub platform_fee_percent: u64,
    pub initial_price: u128,
    pub price_increment_multiplier: u128,
}

/// A state-changing request.
#[derive(Debug)]
pub enum ExecuteMsg {
    Mint {
        creator_royalty_percent: u64,
        name: String,
        backstory: String,
        image_url: String,
    },
    Buy {
        token_id: u64,
    },
    Sell {
        token_id: u64,
    },
}

/// A read-only request.
#[derive(Debug)]
pub enum QueryMsg {
    GetPrice { token_id: u64, amount: u128 },
    GetTokenInfo { token_id: u64 },
}

/// Answer to `QueryMsg::GetPrice`.
#[derive(Debug)]
pub struct GetPriceResponse {
    pub price: u128,
}

} // verus!
