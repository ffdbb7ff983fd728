use bridge_fees::args::{Args, DEFAULT_AMOUNT, DEFAULT_CURRENCY};
use bridge_fees::chain::Chain;
use bridge_fees::fees::{
    burn_units, evm_burn, gas_price_source, near_burn, solana_burn, unit_scale, GasPriceSource,
    ARB_RPC, BASE_RPC, NEAR_RPC,
};
use bridge_fees::oracle::price_url;
use bridge_fees::plan::{plan, Plan};

const SUPPORTED: [Chain; 4] = [Chain::Near, Chain::Base, Chain::Arb, Chain::Sol];

#[test]
fn zero_transfers_burn_nothing_on_every_chain() {
    for chain in SUPPORTED {
        assert_eq!(burn_units(chain, 123_456_789, 0), Some(0));
        assert_eq!(burn_units(chain, u128::MAX, 0), Some(0));
        let burn = burn_units(chain, 100_000_000, 0).unwrap();
        let fiat = burn as f64 / unit_scale(chain) as f64 * 4.25;
        assert_eq!(fiat, 0.0);
    }
}

#[test]
fn near_burn_follows_formula() {
    assert_eq!(
        near_burn(100_000_000, 1000),
        Some(3_922_000_000_000_000_000_000_000)
    );
    assert_eq!(near_burn(0, 1), Some(600_000_000_000_000_000_000));
    let shown = near_burn(100_000_000, 1000).unwrap() as f64 / unit_scale(Chain::Near) as f64;
    assert_eq!(format!("{:.3}", shown), "3.922");
}

#[test]
fn base_and_arb_burn_follow_formula() {
    assert_eq!(evm_burn(Chain::Base, 1_000_000_000, 1000), Some(127_652_000_000_000_000));
    assert_eq!(evm_burn(Chain::Arb, 1_000_000_000, 1000), Some(149_503_000_000_000_000));
    assert_eq!(burn_units(Chain::Arb, 10_000_000, 3), Some(4_485_090_000_000));
    let shown = evm_burn(Chain::Base, 1_000_000_000, 1000).unwrap() as f64
        / unit_scale(Chain::Base) as f64;
    assert_eq!(format!("{:.3}", shown), "0.128");
}

#[test]
fn solana_burn_ignores_gas_price() {
    assert_eq!(solana_burn(1000), Some(103_372_000));
    assert_eq!(burn_units(Chain::Sol, 0, 1000), Some(103_372_000));
    assert_eq!(burn_units(Chain::Sol, 999_999, 1000), Some(103_372_000));
    assert!(matches!(gas_price_source(Chain::Sol), GasPriceSource::Fixed));
    let shown = solana_burn(1000).unwrap() as f64 / unit_scale(Chain::Sol) as f64;
    assert_eq!(format!("{:.6}", shown), "0.103372");
}

#[test]
fn burn_overflow_is_reported() {
    assert_eq!(near_burn(u128::MAX, 1), None);
    assert_eq!(near_burn(0, u128::MAX), None);
    assert_eq!(evm_burn(Chain::Base, u128::MAX / 127_652 + 1, 1), None);
    assert_eq!(evm_burn(Chain::Base, u128::MAX / 127_652, 1), Some(u128::MAX / 127_652 * 127_652));
    assert_eq!(solana_burn(u128::MAX / 103_372 + 1), None);
}

#[test]
fn eth_destination_only_gives_notice() {
    assert!(matches!(plan(Some(Chain::Eth)), Plan::Unsupported(Chain::Eth)));
    assert!(!Chain::Eth.is_supported());
}

#[test]
fn single_destination_quotes_that_chain() {
    for chain in SUPPORTED {
        match plan(Some(chain)) {
            Plan::Quote(v) => assert_eq!(v, vec![chain]),
            Plan::Unsupported(_) => panic!("{:?} should be quoted", chain),
        }
    }
}

#[test]
fn no_destination_quotes_four_chains_in_order() {
    match plan(None) {
        Plan::Quote(v) => {
            assert_eq!(v, vec![Chain::Near, Chain::Base, Chain::Arb, Chain::Sol]);
            assert!(!v.contains(&Chain::Eth));
        }
        Plan::Unsupported(_) => panic!("all chains should be quoted"),
    }
}

#[test]
fn defaults_are_1000_transfers_in_usd() {
    let args = Args::new(None, None, None);
    assert_eq!(args.amount, 1000);
    assert_eq!(args.currency, "usd");
    assert_eq!(args.destination_chain, None);
    assert_eq!(DEFAULT_AMOUNT, 1000);
    assert_eq!(DEFAULT_CURRENCY, "usd");
    let given = Args::new(Some(Chain::Sol), Some(5), Some("eur".to_string()));
    assert_eq!(given.amount, 5);
    assert_eq!(given.currency, "eur");
    assert_eq!(given.destination_chain, Some(Chain::Sol));
    assert!(matches!(given.plan(), Plan::Quote(v) if v == vec![Chain::Sol]));
}

#[test]
fn chain_names_parse() {
    assert_eq!(Chain::parse("near"), Some(Chain::Near));
    assert_eq!(Chain::parse("eth"), Some(Chain::Eth));
    assert_eq!(Chain::parse("base"), Some(Chain::Base));
    assert_eq!(Chain::parse("arb"), Some(Chain::Arb));
    assert_eq!(Chain::parse("sol"), Some(Chain::Sol));
    assert_eq!(Chain::parse("solana"), None);
    assert_eq!(Chain::parse(""), None);
    assert_eq!(Chain::parse("ne"), None);
}

#[test]
fn price_url_names_token_and_currency() {
    assert_eq!(
        price_url(Chain::Near, "usd"),
        "https://api.coingecko.com/api/v3/simple/price?ids=near&vs_currencies=usd"
    );
    assert_eq!(
        price_url(Chain::Arb, "eur"),
        "https://api.coingecko.com/api/v3/simple/price?ids=ethereum&vs_currencies=eur"
    );
    assert_eq!(
        price_url(Chain::Sol, "btc"),
        "https://api.coingecko.com/api/v3/simple/price?ids=solana&vs_currencies=btc"
    );
    assert_eq!(Chain::Base.price_token(), "ethereum");
}

#[test]
fn gas_price_sources_and_labels() {
    assert!(matches!(gas_price_source(Chain::Near), GasPriceSource::NearRpc(u) if u == NEAR_RPC));
    assert!(matches!(gas_price_source(Chain::Base), GasPriceSource::EvmRpc(u) if u == BASE_RPC));
    assert!(matches!(gas_price_source(Chain::Arb), GasPriceSource::EvmRpc(u) if u == ARB_RPC));
    assert_eq!(unit_scale(Chain::Near), 1_000_000_000_000_000_000_000_000);
    assert_eq!(unit_scale(Chain::Arb), 1_000_000_000_000_000_000);
    assert_eq!(unit_scale(Chain::Sol), 1_000_000_000);
    assert_eq!(Chain::Base.display_name(), "Base");
    assert_eq!(Chain::Sol.display_name(), "Solana");
    assert_eq!(Chain::Near.token_unit(), "NEARs");
    assert_eq!(Chain::Arb.token_unit(), "ETHs");
    assert_eq!(Chain::Sol.burn_precision(), 6);
    assert_eq!(Chain::Near.burn_precision(), 3);
}
