use coin_in_the_sky::clock::Clock;

#[test]
fn a_new_clock_carries_nothing() {
    assert_eq!(Clock::default(), Clock { carry_micros: 0 });
}

#[test]
fn whole_milliseconds_are_handed_out_and_the_rest_is_carried() {
    let mut clock = Clock::default();
    assert_eq!(clock.advance(16_667), 16);
    assert_eq!(clock, Clock { carry_micros: 667 });
    assert_eq!(clock.advance(16_667), 17);
    assert_eq!(clock, Clock { carry_micros: 334 });
    assert_eq!(clock.advance(16_666), 17);
    assert_eq!(clock, Clock { carry_micros: 0 });
}

#[test]
fn a_short_frame_may_hand_out_nothing() {
    let mut clock = Clock::default();
    assert_eq!(clock.advance(400), 0);
    assert_eq!(clock.advance(400), 0);
    assert_eq!(clock.advance(400), 1);
    assert_eq!(clock, Clock { carry_micros: 200 });
    assert_eq!(clock.advance(0), 0);
    assert_eq!(clock, Clock { carry_micros: 200 });
}

#[test]
fn sixty_frames_of_a_sixtieth_make_one_second() {
    let mut clock = Clock::default();
    let mut total = 0;
    for frame in 0..60 {
        let elapsed = if frame % 3 == 2 { 16_666 } else { 16_667 };
        let dt = clock.advance(elapsed);
        assert!(dt == 16 || dt == 17);
        total += dt;
    }
    assert_eq!(total, 1_000);
    assert_eq!(clock.carry_micros, 0);
}

#[test]
fn no_time_is_lost_over_many_frames() {
    let mut clock = Clock::default();
    let mut elapsed_total: u64 = 0;
    let mut ticks_total: u64 = 0;
    let mut elapsed: u32 = 1;
    for _ in 0..10_000 {
        elapsed = (elapsed * 75 + 74) % 65_537;
        ticks_total += clock.advance(elapsed) as u64;
        elapsed_total += elapsed as u64;
        assert!(clock.carry_micros < 1_000);
        assert_eq!(ticks_total * 1_000 + clock.carry_micros as u64, elapsed_total);
    }
}

#[test]
fn the_longest_frame_fits() {
    let mut clock = Clock { carry_micros: 999 };
    assert_eq!(clock.advance(u32::MAX), 4_294_968);
    assert_eq!(clock, Clock { carry_micros: 294 });
}
