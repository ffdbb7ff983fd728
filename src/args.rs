use vstd::prelude::*;
use vstd::string::*;

use crate::chain::Chain;
use crate::plan::{plan, planned_chains, Plan};

verus! {

/// Number of transfers quoted when none is given.
pub const DEFAULT_AMOUNT: u128 = 1000;

/// Currency quoted in when none is given.
pub const DEFAULT_CURRENCY: &'static str = "usd";

/// What one run is asked to estimate.
pub struct Args {
    /// The chain to quote; every supported chain when absent.
    pub destination_chain: Option<Chain>,
    /// Number of transfers.
    pub amount: u128,
    /// Currency code the fiat estimate is given in.
    pub currency: String,
}

impl Args {
    /// Builds the request from what the command line gave, filling in the
    /// default amount and currency where an option was left out.
    pub fn new(destination_chain: Option<Chain>, amount: Option<u128>, currency: Option<String>) -> (r: Args)
        ensures
            r.destination_chain == destination_chain,
            r.amount == (match amount {
                Some(a) => a,
                None => DEFAULT_AMOUNT,
            }),
            r.currency@ == (match currency {
                Some(c) => c@,
                None => DEFAULT_CURRENCY@,
            }),
    {
        let amount = match amount {
            Some(a) => a,
            None => DEFAULT_AMOUNT,
        };
        let currency = match currency {
            Some(c) => c,
            None => String::from_str(DEFAULT_CURRENCY),
        };
        Args { destination_chain, amount, currency }
    }

    /// What this request asks the run to do.
    pub fn plan(&self) -> (r: Plan)
        ensures
            match r {
                Plan::Quote(v) => planned_chains(self.destination_chain) == Some(v@),
                Plan::Unsupported(c) => planned_chains(self.destination_chain).is_none()
                    && self.destination_chain == Some(c),
            },
    {
        plan(self.destination_chain)
    }
}

} // verus!
