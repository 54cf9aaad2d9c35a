use amm_core::pricing::get_amount_out;

#[test]
fn test_amount_out_sell_scenario() {
    // floor(100*997*1000 / (1000*1000 + 100*997)) = floor(99700000/1099700)
    assert_eq!(get_amount_out(100, 1000, 1000), 90);
}

#[test]
fn test_amount_out_buy_scenario() {
    // floor(50*997*1100 / (910*1000 + 50*997)) = floor(54835000/959850)
    assert_eq!(get_amount_out(50, 910, 1100), 57);
}

#[test]
fn test_amount_out_zero_input() {
    assert_eq!(get_amount_out(0, 1000, 1000), 0);
    assert_eq!(get_amount_out(0, 5, 7), 0);
}

#[test]
fn test_amount_out_zero_output_reserve() {
    assert_eq!(get_amount_out(123, 456, 0), 0);
}

#[test]
fn test_amount_out_zero_denominator() {
    // Empty pool and zero input: the degenerate guard returns 0
    // instead of dividing by zero.
    assert_eq!(get_amount_out(0, 0, 50), 0);
}

#[test]
fn test_amount_out_deterministic() {
    let first = get_amount_out(12345, 67890, 54321);
    let second = get_amount_out(12345, 67890, 54321);
    assert_eq!(first, second);
}

#[test]
fn test_amount_out_charges_fee() {
    // Without the 0.3% fee a 100-unit swap against equal reserves of
    // 1000 would pay floor(100*1000/1100) = 90; with it the payout
    // can never exceed the fee-free price.
    let out = get_amount_out(100, 1000, 1000);
    assert!(out <= 100 * 1000 / (1000 + 100));
}
