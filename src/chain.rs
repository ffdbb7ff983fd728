use vstd::prelude::*;

use crate::text::str_equals;

verus! {

/// The chains a bridge transfer can end on.
#[derive(Clone, Copy, Debug, PartialEq, Eq, Structural)]
pub enum Chain {
    Near,
    Eth,
    Base,
    Arb,
    Sol,
}

/// The chain that a command-line name stands for.
pub open spec fn chain_named(s: Seq<char>) -> Option<Chain> {
    if s == "near"@ {
        Some(Chain::Near)
    } else if s == "eth"@ {
        Some(Chain::Eth)
    } else if s == "base"@ {
        Some(Chain::Base)
    } else if s == "arb"@ {
        Some(Chain::Arb)
    } else if s == "sol"@ {
        Some(Chain::Sol)
    } else {
        None
    }
}

/// The price-feed id of the token that pays for gas on a chain.
pub open spec fn price_token_of(c: Chain) -> Seq<char> {
    match c {
        Chain::Near => "near"@,
        Chain::Eth | Chain::Base | Chain::Arb => "ethereum"@,
        Chain::Sol => "solana"@,
    }
}

/// Chains whose fees this library can estimate.
pub open spec fn is_supported(c: Chain) -> bool {
    c != Chain::Eth
}

/// How a chain is named in a fee line.
pub open spec fn display_name_of(c: Chain) -> Seq<char> {
    match c {
        Chain::Near => "NEAR"@,
        Chain::Eth => "Eth"@,
        Chain::Base => "Base"@,
        Chain::Arb => "Arb"@,
        Chain::Sol => "Solana"@,
    }
}

/// How a chain's token is named, in the plural, in a fee line.
pub open spec fn token_unit_of(c: Chain) -> Seq<char> {
    match c {
        Chain::Near => "NEARs"@,
        Chain::Sol => "SOLs"@,
        _ => "ETHs"@,
    }
}

/// Decimal places a chain's burn is shown with.
pub open spec fn burn_precision_of(c: Chain) -> usize {
    match c {
        Chain::Sol => 6,
        _ => 3,
    }
}

impl Chain {
    /// Reads a chain from its command-line name (`near`, `eth`, `base`,
    /// `arb` or `sol`).
    pub fn parse(s: &str) -> (r: Option<Chain>)
        ensures
            r == chain_named(s@),
    {
        if str_equals(s, "near") {
            Some(Chain::Near)
        } else if str_equals(s, "eth") {
            Some(Chain::Eth)
        } else if str_equals(s, "base") {
            Some(Chain::Base)
        } else if str_equals(s, "arb") {
            Some(Chain::Arb)
        } else if str_equals(s, "sol") {
            Some(Chain::Sol)
        } else {
            None
        }
    }

    /// The price-feed id of the chain's native token; Base and Arbitrum pay
    /// gas in ether.
    pub fn price_token(self) -> (r: &'static str)
        ensures
            r@ == price_token_of(self),
    {
        match self {
            Chain::Near => "near",
            Chain::Eth | Chain::Base | Chain::Arb => "ethereum",
            Chain::Sol => "solana",
        }
    }

    /// The chain's name in a fee line.
    pub fn display_name(self) -> (r: &'static str)
        ensures
            r@ == display_name_of(self),
    {
        match self {
            Chain::Near => "NEAR",
            Chain::Eth => "Eth",
            Chain::Base => "Base",
            Chain::Arb => "Arb",
            Chain::Sol => "Solana",
        }
    }

    /// The plural name of the chain's token in a fee line.
    pub fn token_unit(self) -> (r: &'static str)
        ensures
            r@ == token_unit_of(self),
    {
        match self {
            Chain::Near => "NEARs",
            Chain::Sol => "SOLs",
            _ => "ETHs",
        }
    }

    /// Decimal places the chain's burn is shown with.
    pub fn burn_precision(self) -> (r: usize)
        ensures
            r == burn_precision_of(self),
    {
        match self {
            Chain::Sol => 6,
            _ => 3,
        }
    }

    /// Whether fees can be estimated for this chain.
    pub fn is_supported(self) -> (r: bool)
        ensures
            r == is_supported(self),
    {
        !matches!(self, Chain::Eth)
    }
}

} // verus!
