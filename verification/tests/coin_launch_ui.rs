use coin_in_the_sky::coin_launch_ui::{reset_launch_speed, update_speed, CoinLaunchSpeedPercentage};

#[test]
fn the_meter_advances_with_time() {
    let mut meter = CoinLaunchSpeedPercentage(0);
    update_speed(&mut meter, 250);
    assert_eq!(meter, CoinLaunchSpeedPercentage(250_000));
    update_speed(&mut meter, 17);
    assert_eq!(meter, CoinLaunchSpeedPercentage(267_000));
}

#[test]
fn the_meter_wraps_past_one() {
    let mut meter = CoinLaunchSpeedPercentage(900_000);
    update_speed(&mut meter, 250);
    assert_eq!(meter, CoinLaunchSpeedPercentage(150_000));
}

#[test]
fn the_meter_may_rest_on_one_for_a_tick() {
    let mut meter = CoinLaunchSpeedPercentage(750_000);
    update_speed(&mut meter, 250);
    assert_eq!(meter, CoinLaunchSpeedPercentage(1_000_000));
    update_speed(&mut meter, 1);
    assert_eq!(meter, CoinLaunchSpeedPercentage(1_000));
}

#[test]
fn a_long_tick_keeps_only_the_fraction() {
    let mut meter = CoinLaunchSpeedPercentage(100_000);
    update_speed(&mut meter, 3_250);
    assert_eq!(meter, CoinLaunchSpeedPercentage(350_000));
    let mut whole = CoinLaunchSpeedPercentage(0);
    update_speed(&mut whole, 2_000);
    assert_eq!(whole, CoinLaunchSpeedPercentage(0));
}

#[test]
fn the_longest_tick_wraps_too() {
    let mut meter = CoinLaunchSpeedPercentage(1_000_000);
    update_speed(&mut meter, u32::MAX);
    assert_eq!(meter, CoinLaunchSpeedPercentage(295_000));
}

#[test]
fn a_meter_below_zero_climbs_without_wrapping() {
    let mut meter = CoinLaunchSpeedPercentage(-5_000_000);
    update_speed(&mut meter, 1_000);
    assert_eq!(meter, CoinLaunchSpeedPercentage(-4_000_000));
}

#[test]
fn no_time_no_change() {
    let mut meter = CoinLaunchSpeedPercentage(123_456);
    update_speed(&mut meter, 0);
    assert_eq!(meter, CoinLaunchSpeedPercentage(123_456));
}

#[test]
fn reset_puts_the_meter_to_zero() {
    let mut meter = CoinLaunchSpeedPercentage(999_999);
    reset_launch_speed(&mut meter);
    assert_eq!(meter, CoinLaunchSpeedPercentage(0));
}

#[test]
fn the_meter_stays_within_zero_and_one() {
    let mut meter = CoinLaunchSpeedPercentage(0);
    for tick in 0..10_000u32 {
        update_speed(&mut meter, 1 + tick % 40);
        assert!(0 <= meter.0 && meter.0 <= 1_000_000);
    }
}
