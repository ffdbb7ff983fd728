use vstd::prelude::*;
use vstd::string::*;

use crate::chain::{price_token_of, Chain};

verus! {

/// Spot-price endpoint, up to the token id.
pub const PRICE_API: &'static str = "https://api.coingecko.com/api/v3/simple/price?ids=";

/// Query parameter that carries the currency code.
pub const CURRENCY_PARAM: &'static str = "&vs_currencies=";

/// The spot-price query for a chain's native token in `currency`.
pub open spec fn price_url_of(c: Chain, currency: Seq<char>) -> Seq<char> {
    PRICE_API@ + price_token_of(c) + CURRENCY_PARAM@ + currency
}

/// The URL that asks the price feed for the chain's token in `currency`;
/// the answer holds the price under the keys token id, then currency.
pub fn price_url(chain: Chain, currency: &str) -> (r: String)
    ensures
        r@ == price_url_of(chain, currency@),
{
    let mut url = String::from_str(PRICE_API);
    url.append(chain.price_token());
    url.append(CURRENCY_PARAM);
    url.append(currency);
    url
}

} // verus!
