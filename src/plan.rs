use vstd::prelude::*;

use crate::chain::{is_supported, Chain};

verus! {

/// What a run does for the destination chain it was given.
#[derive(Debug)]
pub enum Plan {
    /// Fees for this chain cannot be estimated: only a notice is emitted.
    Unsupported(Chain),
    /// Estimate the fees of these chains, one line each, in this order.
    Quote(Vec<Chain>),
}

/// The chains quoted for a destination, or `None` where only the
/// unsupported-chain notice is due.
pub open spec fn planned_chains(destination: Option<Chain>) -> Option<Seq<Chain>> {
    match destination {
        None => Some(seq![Chain::Near, Chain::Base, Chain::Arb, Chain::Sol]),
        Some(c) => if is_supported(c) {
            Some(seq![c])
        } else {
            None
        },
    }
}

/// Decides which chains to quote: the given one, or every supported chain
/// in a fixed order when none is given.
pub fn plan(destination: Option<Chain>) -> (r: Plan)
    ensures
        match r {
            Plan::Quote(v) => planned_chains(destination) == Some(v@),
            Plan::Unsupported(c) => planned_chains(destination).is_none() && destination
                == Some(c),
        },
        destination == Some(Chain::Eth) ==> r == Plan::Unsupported(Chain::Eth),
        destination.is_none() ==> (r matches Plan::Quote(v) && v@ == seq![
            Chain::Near,
            Chain::Base,
            Chain::Arb,
            Chain::Sol,
        ]),
{
    match destination {
        None => Plan::Quote(vec![Chain::Near, Chain::Base, Chain::Arb, Chain::Sol]),
        Some(c) => if c.is_supported() {
            Plan::Quote(vec![c])
        } else {
            Plan::Unsupported(c)
        },
    }
}

/// Every chain that a plan quotes is one whose fees can be estimated: the
/// unsupported chain is never quoted, with or without a destination.
pub proof fn lemma_planned_chains_supported(destination: Option<Chain>)
    ensures
        planned_chains(destination) matches Some(s) ==> forall|i: int|
            0 <= i < s.len() ==> #[trigger] is_supported(s[i]),
{
}

} // verus!
