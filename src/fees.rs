use vstd::prelude::*;

use crate::chain::{is_supported, Chain};

verus! {

/// Deposit, in yoctoNEAR, attached to each transfer finalised on NEAR.
pub const NEAR_FIN_TRANSFER_DEPOSIT: u128 = 600_000_000_000_000_000_000;

/// Gas that one bridge transfer consumes on NEAR.
pub const NEAR_GAS: u128 = 33_220_000_000_000;

/// Gas that one bridge transfer consumes on Base.
pub const BASE_GAS: u128 = 127_652;

/// Gas that one bridge transfer consumes on Arbitrum.
pub const ARB_GAS: u128 = 149_503;

/// Lamports that one bridge transfer costs on Solana.
pub const SOLANA_GAS: u128 = 103_372;

/// JSON-RPC endpoint that NEAR's gas price is read from.
pub const NEAR_RPC: &'static str = "https://rpc.mainnet.near.org";

/// JSON-RPC endpoint that Base's gas price is read from.
pub const BASE_RPC: &'static str = "https://base.llamarpc.com";

/// JSON-RPC endpoint that Arbitrum's gas price is read from.
pub const ARB_RPC: &'static str = "https://arbitrum.llamarpc.com";

/// Where the gas price of a supported chain comes from.
#[derive(Clone, Copy, Debug)]
pub enum GasPriceSource {
    /// NEAR's `gas_price` method at this endpoint (latest block).
    NearRpc(&'static str),
    /// An EVM provider's gas price at this endpoint.
    EvmRpc(&'static str),
    /// No query: the chain's fee per transfer is a constant.
    Fixed,
}

/// Where each supported chain's gas price is read from.
pub open spec fn gas_price_source_of(c: Chain) -> GasPriceSource {
    match c {
        Chain::Near => GasPriceSource::NearRpc(NEAR_RPC),
        Chain::Base => GasPriceSource::EvmRpc(BASE_RPC),
        Chain::Arb => GasPriceSource::EvmRpc(ARB_RPC),
        _ => GasPriceSource::Fixed,
    }
}

/// Gas one transfer consumes on an EVM chain.
pub open spec fn evm_gas_of(c: Chain) -> int {
    if c == Chain::Base {
        BASE_GAS as int
    } else {
        ARB_GAS as int
    }
}

/// What `amount` transfers burn on a supported chain, in the chain's
/// smallest unit, for a given gas price (unused on Solana).
pub open spec fn burn_of(c: Chain, gas_price: int, amount: int) -> int {
    match c {
        Chain::Near => (gas_price * NEAR_GAS + NEAR_FIN_TRANSFER_DEPOSIT) * amount,
        Chain::Sol => SOLANA_GAS * amount,
        _ => gas_price * evm_gas_of(c) * amount,
    }
}

/// Number of decimals between a chain's smallest unit and its token.
pub open spec fn decimals_of(c: Chain) -> nat {
    match c {
        Chain::Near => 24,
        Chain::Sol => 9,
        _ => 18,
    }
}

/// Ten to the power `n`.
pub open spec fn ten_pow(n: nat) -> nat
    decreases n,
{
    if n == 0 {
        1
    } else {
        10 * ten_pow((n - 1) as nat)
    }
}

/// Whether a burn fits in a `u128`.
pub open spec fn fits(v: int) -> bool {
    v <= u128::MAX
}

proof fn lemma_mul_at_least(x: int, k: int)
    requires
        x >= 0,
        k >= 1,
    ensures
        x * k >= x,
{
    assert(x * k >= x) by (nonlinear_arith)
        requires
            x >= 0,
            k >= 1,
    ;
}

/// Total yoctoNEAR that `amount` transfers to NEAR burn at `gas_price`
/// yoctoNEAR per gas; `None` when it exceeds `u128::MAX`.
pub fn near_burn(gas_price: u128, amount: u128) -> (r: Option<u128>)
    ensures
        r == (if fits(burn_of(Chain::Near, gas_price as int, amount as int)) {
            Some(burn_of(Chain::Near, gas_price as int, amount as int) as u128)
        } else {
            None
        }),
{
    if amount == 0 {
        proof {
            lemma_zero_transfers_burn_nothing(Chain::Near, gas_price as int);
        }
        return Some(0);
    }
    proof {
        let per_transfer_gas = gas_price as int * NEAR_GAS as int;
        lemma_mul_at_least(per_transfer_gas + NEAR_FIN_TRANSFER_DEPOSIT, amount as int);
    }
    match gas_price.checked_mul(NEAR_GAS) {
        None => None,
        Some(g) => match g.checked_add(NEAR_FIN_TRANSFER_DEPOSIT) {
            None => None,
            Some(p) => p.checked_mul(amount),
        },
    }
}

/// Total wei that `amount` transfers to Base or Arbitrum burn at
/// `gas_price` wei per gas; `None` when it exceeds `u128::MAX`.
pub fn evm_burn(chain: Chain, gas_price: u128, amount: u128) -> (r: Option<u128>)
    requires
        chain == Chain::Base || chain == Chain::Arb,
    ensures
        r == (if fits(burn_of(chain, gas_price as int, amount as int)) {
            Some(burn_of(chain, gas_price as int, amount as int) as u128)
        } else {
            None
        }),
{
    let gas: u128 = match chain {
        Chain::Base => BASE_GAS,
        _ => ARB_GAS,
    };
    if amount == 0 {
        proof {
            lemma_zero_transfers_burn_nothing(chain, gas_price as int);
        }
        return Some(0);
    }
    proof {
        lemma_mul_at_least(gas_price as int * gas as int, amount as int);
    }
    match gas_price.checked_mul(gas) {
        None => None,
        Some(g) => g.checked_mul(amount),
    }
}

/// Total lamports that `amount` transfers to Solana burn; `None` when it
/// exceeds `u128::MAX`.
pub fn solana_burn(amount: u128) -> (r: Option<u128>)
    ensures
        r == (if fits(burn_of(Chain::Sol, 0, amount as int)) {
            Some(burn_of(Chain::Sol, 0, amount as int) as u128)
        } else {
            None
        }),
{
    SOLANA_GAS.checked_mul(amount)
}

/// Total that `amount` transfers to a supported chain burn, in the chain's
/// smallest unit; `gas_price` is not read for Solana, whose fee is fixed.
pub fn burn_units(chain: Chain, gas_price: u128, amount: u128) -> (r: Option<u128>)
    requires
        is_supported(chain),
    ensures
        r == (if fits(burn_of(chain, gas_price as int, amount as int)) {
            Some(burn_of(chain, gas_price as int, amount as int) as u128)
        } else {
            None
        }),
{
    match chain {
        Chain::Near => near_burn(gas_price, amount),
        Chain::Sol => solana_burn(amount),
        _ => evm_burn(chain, gas_price, amount),
    }
}

/// Where the gas price of a supported chain is read from; Solana needs no
/// query.
pub fn gas_price_source(chain: Chain) -> (r: GasPriceSource)
    requires
        is_supported(chain),
    ensures
        r == gas_price_source_of(chain),
{
    match chain {
        Chain::Near => GasPriceSource::NearRpc(NEAR_RPC),
        Chain::Base => GasPriceSource::EvmRpc(BASE_RPC),
        Chain::Arb => GasPriceSource::EvmRpc(ARB_RPC),
        _ => GasPriceSource::Fixed,
    }
}

/// How many of a chain's smallest unit make one of its token: a burn is
/// shown as `burn_units / unit_scale`.
pub fn unit_scale(chain: Chain) -> (r: u128)
    ensures
        r == ten_pow(decimals_of(chain)),
{
    proof {
        reveal_with_fuel(ten_pow, 25);
    }
    match chain {
        Chain::Near => 1_000_000_000_000_000_000_000_000,
        Chain::Sol => 1_000_000_000,
        _ => 1_000_000_000_000_000_000,
    }
}

/// No transfers burn nothing, on every supported chain and at any gas price.
pub proof fn lemma_zero_transfers_burn_nothing(c: Chain, gas_price: int)
    requires
        is_supported(c),
    ensures
        burn_of(c, gas_price, 0) == 0,
{
}

/// Solana's burn depends on the number of transfers alone: its gas price is
/// never read, and no query is made for it.
pub proof fn lemma_solana_burn_is_fixed(gas_price_a: int, gas_price_b: int, amount: int)
    ensures
        burn_of(Chain::Sol, gas_price_a, amount) == burn_of(Chain::Sol, gas_price_b, amount),
        burn_of(Chain::Sol, gas_price_a, amount) == SOLANA_GAS * amount,
        gas_price_source_of(Chain::Sol) == GasPriceSource::Fixed,
{
}

} // verus!
