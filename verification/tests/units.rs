use block_inspector::units::wei_to_eth_parts;
use block_inspector::units::WEI_PER_ETH;

/// Renders a wei amount as a floating-point number of whole currency units,
/// the way an operator-facing report would; amounts beyond 2^53 whole units
/// lose integer precision, which the report accepts.
fn wei_to_eth(wei: u128) -> f64 {
    let (whole, rest) = wei_to_eth_parts(wei);
    whole as f64 + rest as f64 / WEI_PER_ETH as f64
}

/// One whole unit is exactly 10^18 wei; zero wei is exactly zero.
#[test]
fn one_eth_and_zero() {
    assert_eq!(wei_to_eth(1_000_000_000_000_000_000), 1.0);
    assert_eq!(wei_to_eth(0), 0.0);
}

/// The split is exact division with remainder.
#[test]
fn split_is_exact() {
    assert_eq!(wei_to_eth_parts(0), (0, 0));
    assert_eq!(wei_to_eth_parts(1), (0, 1));
    assert_eq!(
        wei_to_eth_parts(999_999_999_999_999_999),
        (0, 999_999_999_999_999_999)
    );
    assert_eq!(wei_to_eth_parts(1_000_000_000_000_000_000), (1, 0));
    assert_eq!(
        wei_to_eth_parts(1_500_000_000_000_000_000),
        (1, 500_000_000_000_000_000)
    );
    let (whole, rest) = wei_to_eth_parts(u128::MAX);
    assert_eq!(whole * WEI_PER_ETH + rest, u128::MAX);
    assert!(rest < WEI_PER_ETH);
}

/// Half a unit renders as 0.5.
#[test]
fn fractional_amounts() {
    assert_eq!(wei_to_eth(500_000_000_000_000_000), 0.5);
    assert_eq!(wei_to_eth(2_250_000_000_000_000_000), 2.25);
}
