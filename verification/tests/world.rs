use coin_in_the_sky::app_state::Signal;
use coin_in_the_sky::boost_item::BoostItem;
use coin_in_the_sky::cloud::Cloud;
use coin_in_the_sky::coin::{Coin, CoinAnimation, Controls};
use coin_in_the_sky::coin_launch_ui::CoinLaunchSpeedPercentage;
use coin_in_the_sky::fairy::Fairy;
use coin_in_the_sky::level::LevelMetadata;
use coin_in_the_sky::rect::Point;
use coin_in_the_sky::scores::Scores;
use coin_in_the_sky::world::{
    tick, World, COUNT_LIMIT, LAUNCHER_Y, LENGTH_LIMIT, SPEED_LIMIT, TICK_LIMIT,
};
use rand::rngs::StdRng;
use rand::SeedableRng;

const UNIT: i64 = 1_000_000;

const IDLE: Controls = Controls { left: false, right: false, boost: false };

fn launched(percentage: i64) -> World {
    World::new(&CoinLaunchSpeedPercentage(percentage))
}

fn far_level() -> LevelMetadata {
    LevelMetadata {
        next_cloud_spawn_altitude: 1_000_000 * UNIT,
        next_boost_spawn_altitude: 1_000_000 * UNIT,
        next_fairy_spawn_altitude: 1_000_000 * UNIT,
    }
}

fn quiet(speed: i64) -> World {
    let mut world = launched(0);
    world.coin.speed = speed;
    world.level = far_level();
    world
}

#[test]
fn a_launched_world_holds_one_coin_and_an_empty_sky() {
    let world = launched(1_000_000);
    assert_eq!(
        world.coin,
        Coin { speed: 1_400_000, additional_boosts: 3, altitude: 0, highest_altitude_recorded: 0 }
    );
    assert_eq!(world.coin_position, Point::new(0, 0));
    assert_eq!(world.animation, CoinAnimation::default());
    assert_eq!(world.camera_y, 0);
    assert_eq!(world.level, LevelMetadata::default());
    assert!(world.clouds.is_empty());
    assert!(world.boost_items.is_empty());
    assert!(world.fairies.is_empty());
    assert_eq!(world.scenery, vec![Point::new(0, LAUNCHER_Y)]);
    assert_eq!(LAUNCHER_Y, -240 * UNIT);
}

#[test]
fn the_launcher_scrolls_away_and_is_dropped() {
    let mut rng = StdRng::seed_from_u64(1);
    let mut scores = Scores::default();
    let mut world = quiet(1_000_000);
    tick(&mut world, &mut scores, &IDLE, 10, &mut rng);
    assert_eq!(world.scenery, vec![Point::new(0, LAUNCHER_Y - (1_000_000 - 980) * 10)]);
    let mut ticks = 1;
    while !world.scenery.is_empty() {
        assert_eq!(world.scenery[0].y, LAUNCHER_Y - world.coin.altitude);
        tick(&mut world, &mut scores, &Controls { left: false, right: false, boost: true }, 100, &mut rng);
        ticks += 1;
        assert!(ticks < 1_000);
    }
    assert!(world.coin.altitude > 9_760 * UNIT);
}

#[test]
fn a_launched_world_is_within_limits() {
    assert!(launched(0).within_limits(17));
    assert!(launched(1_000_000).within_limits(TICK_LIMIT));
    assert!(!launched(0).within_limits(TICK_LIMIT + 1));
}

#[test]
fn the_limits_are_far_from_any_flight() {
    assert_eq!(TICK_LIMIT, 10_000);
    assert_eq!(SPEED_LIMIT, 1_000_000 * 1_000_000);
    assert_eq!(LENGTH_LIMIT, 100_000_000_000 * UNIT);
    assert_eq!(COUNT_LIMIT, 1_000_000);
}

#[test]
fn a_world_beyond_a_limit_is_told_apart() {
    let mut world = launched(0);
    world.coin.speed = SPEED_LIMIT;
    assert!(world.within_limits(17));
    world.coin.speed = SPEED_LIMIT + 1;
    assert!(!world.within_limits(17));
    let mut world = launched(0);
    world.coin.altitude = -LENGTH_LIMIT - 1;
    assert!(!world.within_limits(17));
    let mut world = launched(0);
    world.animation.direction = 0;
    assert!(!world.within_limits(17));
    let mut world = launched(0);
    world.clouds.push(Cloud { active: true, sprite: 0, position: Point::new(0, LENGTH_LIMIT) });
    assert!(world.within_limits(17));
    world.fairies.push(Fairy { position: Point::new(LENGTH_LIMIT + 1, 0) });
    assert!(!world.within_limits(17));
    let mut world = launched(0);
    world.boost_items.push(BoostItem { position: Point::new(0, -LENGTH_LIMIT - 1) });
    assert!(!world.within_limits(17));
    let mut world = launched(0);
    world.camera_y = LENGTH_LIMIT + 1;
    assert!(!world.within_limits(17));
    let mut world = launched(0);
    world.scenery.push(Point::new(0, LENGTH_LIMIT + 1));
    assert!(!world.within_limits(17));
    let mut world = launched(0);
    world.level.next_fairy_spawn_altitude = LENGTH_LIMIT + 1;
    assert!(!world.within_limits(17));
    let mut world = launched(0);
    world.coin.additional_boosts = COUNT_LIMIT + 1;
    assert!(!world.within_limits(17));
}

#[test]
fn one_second_of_free_flight_in_the_world() {
    let mut rng = StdRng::seed_from_u64(1);
    let mut scores = Scores::default();
    let mut world = launched(1_000_000);
    world.level = far_level();
    let mut speed: i128 = 1_400_000;
    let mut altitude: i128 = 0;
    for i in 0..60 {
        let dt: u32 = if i % 3 == 2 { 16 } else { 17 };
        assert!(world.within_limits(dt));
        assert_eq!(tick(&mut world, &mut scores, &IDLE, dt, &mut rng), None);
        speed -= 98 * dt as i128;
        altitude += speed * dt as i128;
        assert_eq!(world.coin.speed as i128, speed);
        assert_eq!(world.coin.altitude as i128, altitude);
        assert_eq!(world.coin.highest_altitude_recorded, world.coin.altitude);
    }
    assert_eq!(world.coin.speed, 1_302_000);
    assert_eq!(world.coin.altitude, 1_350_182_680);
    assert_eq!(world.coin.additional_boosts, 3);
    assert_eq!(world.coin_position, Point::new(0, 0));
    assert_eq!(scores, Scores::default());
}

#[test]
fn a_boost_counts_in_the_tick_of_its_press() {
    let mut rng = StdRng::seed_from_u64(1);
    let mut scores = Scores::default();
    let mut world = quiet(500_000);
    let boost = Controls { left: false, right: false, boost: true };
    tick(&mut world, &mut scores, &boost, 20, &mut rng);
    assert_eq!(world.coin.speed, 500_000 - 98 * 20 + 200_000);
    assert_eq!(world.coin.altitude, (500_000 - 98 * 20 + 200_000) * 20);
    assert_eq!(world.coin.additional_boosts, 2);
}

#[test]
fn steering_counts_before_the_altitude_is_integrated() {
    let mut rng = StdRng::seed_from_u64(1);
    let mut scores = Scores::default();
    let mut world = quiet(500_000);
    let left = Controls { left: true, right: false, boost: false };
    tick(&mut world, &mut scores, &left, 20, &mut rng);
    assert_eq!(world.coin.speed, 500_000 - 98 * 20 - 90 * 20);
    assert_eq!(world.coin.altitude, (500_000 - 98 * 20 - 90 * 20) * 20);
    assert_eq!(world.coin_position, Point::new(-4_000_000, 0));
}

#[test]
fn both_keys_in_a_tick_neither_move_nor_cost() {
    let mut rng = StdRng::seed_from_u64(1);
    let mut scores = Scores::default();
    let mut both = quiet(500_000);
    let mut neither = quiet(500_000);
    tick(&mut both, &mut scores, &Controls { left: true, right: true, boost: false }, 20, &mut rng);
    tick(&mut neither, &mut scores, &IDLE, 20, &mut rng);
    assert_eq!(both.coin_position, Point::new(0, 0));
    assert_eq!(both.coin, neither.coin);
    assert_eq!(both.coin.speed, 500_000 - 98 * 20);
}

#[test]
fn the_face_turns_at_the_speed_that_gravity_left() {
    let mut rng = StdRng::seed_from_u64(1);
    let mut scores = Scores::default();
    let mut world = quiet(2_400_000 + 98 * 10);
    tick(&mut world, &mut scores, &Controls { left: false, right: false, boost: true }, 10, &mut rng);
    assert_eq!(world.animation, CoinAnimation { orientation: 850_000, direction: -1 });
}

#[test]
fn the_world_scrolls_by_what_the_coin_climbs() {
    let mut rng = StdRng::seed_from_u64(1);
    let mut scores = Scores::default();
    let mut world = quiet(1_000_000);
    world.clouds.push(Cloud { active: true, sprite: 2, position: Point::new(150 * UNIT, 900 * UNIT) });
    world.boost_items.push(BoostItem { position: Point::new(-150 * UNIT, 800 * UNIT) });
    world.fairies.push(Fairy { position: Point::new(150 * UNIT, -500 * UNIT) });
    tick(&mut world, &mut scores, &IDLE, 10, &mut rng);
    let climbed = (1_000_000 - 980) * 10;
    assert_eq!(world.coin.altitude, climbed);
    assert_eq!(
        world.clouds,
        vec![Cloud { active: true, sprite: 2, position: Point::new(150 * UNIT, 900 * UNIT - climbed) }]
    );
    assert_eq!(world.boost_items, vec![BoostItem { position: Point::new(-150 * UNIT, 800 * UNIT - climbed) }]);
    assert_eq!(world.fairies, vec![Fairy { position: Point::new(150 * UNIT, -500 * UNIT - climbed) }]);
}

#[test]
fn what_scrolls_out_of_range_leaves_the_world() {
    let mut rng = StdRng::seed_from_u64(1);
    let mut scores = Scores::default();
    let mut world = quiet(1_000_000);
    world.clouds.push(Cloud { active: true, sprite: 2, position: Point::new(150 * UNIT, -10_000 * UNIT) });
    world.clouds.push(Cloud { active: false, sprite: 3, position: Point::new(150 * UNIT, -9_000 * UNIT) });
    world.fairies.push(Fairy { position: Point::new(150 * UNIT, -10_000 * UNIT + 1) });
    tick(&mut world, &mut scores, &IDLE, 10, &mut rng);
    assert_eq!(world.clouds.len(), 1);
    assert_eq!(world.clouds[0].sprite, 3);
    assert!(world.fairies.is_empty());
}

#[test]
fn the_camera_pans_in_the_tick() {
    let mut rng = StdRng::seed_from_u64(1);
    let mut scores = Scores::default();
    let mut world = quiet(1_000_000);
    tick(&mut world, &mut scores, &IDLE, 17, &mut rng);
    assert_eq!(world.camera_y, 2_550_000);
    let mut falling = quiet(-100_000 + 98 * 100);
    falling.camera_y = 150 * UNIT;
    tick(&mut falling, &mut scores, &IDLE, 100, &mut rng);
    assert_eq!(falling.camera_y, 160 * UNIT);
}

#[test]
fn collisions_see_the_coin_after_it_has_moved() {
    let mut rng = StdRng::seed_from_u64(1);
    let mut scores = Scores::default();
    let mut world = quiet(1_000_000);
    let climbed = (1_000_000 - 980) * 10;
    world.clouds.push(Cloud { active: true, sprite: 0, position: Point::new(0, 40 * UNIT + climbed - 1) });
    world.clouds.push(Cloud { active: true, sprite: 1, position: Point::new(0, 40 * UNIT + climbed) });
    world.boost_items.push(BoostItem { position: Point::new(44 * UNIT, climbed) });
    world.fairies.push(Fairy { position: Point::new(-54 * UNIT, climbed) });
    tick(&mut world, &mut scores, &IDLE, 10, &mut rng);
    assert_eq!(world.coin.speed, 1_000_000 - 980 - 200_000 + 400_000);
    assert_eq!(world.coin.additional_boosts, 4);
    assert_eq!(
        world.clouds,
        vec![
            Cloud { active: false, sprite: 0, position: Point::new(0, 40 * UNIT - 1) },
            Cloud { active: true, sprite: 1, position: Point::new(0, 40 * UNIT) },
        ]
    );
    assert!(world.boost_items.is_empty());
    assert!(world.fairies.is_empty());
    assert_eq!(world.coin.altitude, climbed);
}

#[test]
fn clouds_are_resolved_before_fairies() {
    let mut rng = StdRng::seed_from_u64(1);
    let mut scores = Scores::default();
    let mut world = quiet(100_000 + 98 * 10);
    let climbed = 100_000 * 10;
    world.clouds.push(Cloud { active: true, sprite: 0, position: Point::new(0, climbed) });
    world.fairies.push(Fairy { position: Point::new(0, climbed) });
    tick(&mut world, &mut scores, &IDLE, 10, &mut rng);
    assert_eq!(world.coin.speed, 400_000);
}

#[test]
fn a_falling_coin_in_a_cloud_is_not_slowed_though_a_fairy_lifts_it() {
    let mut rng = StdRng::seed_from_u64(1);
    let mut scores = Scores::default();
    let mut world = quiet(-100_000 + 98 * 10);
    let climbed = -100_000 * 10;
    world.clouds.push(Cloud { active: true, sprite: 0, position: Point::new(0, climbed) });
    world.fairies.push(Fairy { position: Point::new(0, climbed) });
    tick(&mut world, &mut scores, &IDLE, 10, &mut rng);
    assert_eq!(world.coin.speed, 300_000);
    assert!(world.clouds[0].active);
    tick(&mut world, &mut scores, &IDLE, 10, &mut rng);
    assert!(!world.clouds[0].active);
    assert_eq!(world.coin.speed, 300_000 - 980 - 200_000);
}

#[test]
fn a_spent_cloud_stays_spent_through_many_ticks() {
    let mut rng = StdRng::seed_from_u64(1);
    let mut scores = Scores::default();
    let mut world = quiet(200_000);
    world.clouds.push(Cloud { active: true, sprite: 4, position: Point::new(0, UNIT) });
    tick(&mut world, &mut scores, &IDLE, 1, &mut rng);
    assert_eq!(world.coin.speed, 200_000 - 98 - 200_000 + 98);
    assert!(!world.clouds[0].active);
    let mut speed = world.coin.speed;
    for _ in 0..200 {
        tick(&mut world, &mut scores, &IDLE, 1, &mut rng);
        speed -= 98;
        assert_eq!(world.coin.speed, speed);
        assert_eq!(world.clouds.len(), 1);
        assert!(!world.clouds[0].active);
        assert_eq!(world.clouds[0].sprite, 4);
    }
}

#[test]
fn a_lost_coin_is_scored_and_signalled() {
    let mut rng = StdRng::seed_from_u64(1);
    let mut scores = Scores { end_score: 0, best_score: 50, new_record: false };
    let mut world = quiet(-399_000);
    world.coin.altitude = 800 * UNIT;
    world.coin.highest_altitude_recorded = 1_234 * UNIT + 999_999;
    assert_eq!(tick(&mut world, &mut scores, &IDLE, 10, &mut rng), None);
    assert_eq!(world.coin.speed, -399_980);
    assert_eq!(scores, Scores { end_score: 0, best_score: 50, new_record: false });
    assert_eq!(tick(&mut world, &mut scores, &IDLE, 10, &mut rng), Some(Signal::CoinLost));
    assert_eq!(world.coin.speed, -400_960);
    assert_eq!(scores, Scores { end_score: 123, best_score: 123, new_record: true });
}

#[test]
fn a_boost_in_the_last_tick_saves_the_coin() {
    let mut rng = StdRng::seed_from_u64(1);
    let mut scores = Scores::default();
    let mut world = quiet(-399_990);
    let boost = Controls { left: false, right: false, boost: true };
    assert_eq!(tick(&mut world, &mut scores, &boost, 10, &mut rng), None);
    assert_eq!(world.coin.speed, -200_970);
    assert_eq!(scores, Scores::default());
}

#[test]
fn the_rest_of_the_tick_runs_though_the_coin_is_lost() {
    let mut rng = StdRng::seed_from_u64(1);
    let mut scores = Scores::default();
    let mut world = quiet(-500_000);
    let climbed = (-500_000 - 980) * 10;
    world.fairies.push(Fairy { position: Point::new(0, climbed) });
    world.camera_y = 150 * UNIT;
    assert_eq!(tick(&mut world, &mut scores, &IDLE, 10, &mut rng), Some(Signal::CoinLost));
    assert_eq!(world.coin.speed, -500_980 + 400_000);
    assert!(world.fairies.is_empty());
    assert_eq!(world.camera_y, 150 * UNIT + 500_980 * 1_000 * 10 / 1_000);
}

#[test]
fn the_generator_spawns_as_the_coin_climbs() {
    let mut rng = StdRng::seed_from_u64(3);
    let mut scores = Scores::default();
    let mut world = launched(1_000_000);
    let mut due_fairies = false;
    for _ in 0..400 {
        let before = world.level;
        let fairies_before = world.fairies.len();
        tick(&mut world, &mut scores, &IDLE, 16, &mut rng);
        if world.coin.altitude >= before.next_fairy_spawn_altitude {
            due_fairies = true;
            assert!(world.fairies.len() > fairies_before);
            assert_eq!(world.level.next_fairy_spawn_altitude, before.next_fairy_spawn_altitude + 700 * UNIT);
        } else {
            assert_eq!(world.level.next_fairy_spawn_altitude, before.next_fairy_spawn_altitude);
        }
        assert!(world.coin.additional_boosts >= 0);
        assert!(world.coin.highest_altitude_recorded >= world.coin.altitude);
    }
    assert!(due_fairies);
    assert!(world.level.next_cloud_spawn_altitude > 700 * UNIT);
    assert!(world.level.next_boost_spawn_altitude > 1_050 * UNIT);
}

#[test]
fn fresh_batches_are_active_and_placed_in_the_band() {
    let mut rng = StdRng::seed_from_u64(3);
    let mut scores = Scores::default();
    let mut world = quiet(1_000_000);
    world.level = LevelMetadata {
        next_cloud_spawn_altitude: 0,
        next_boost_spawn_altitude: 0,
        next_fairy_spawn_altitude: 0,
    };
    tick(&mut world, &mut scores, &IDLE, 16, &mut rng);
    assert!(1 <= world.clouds.len() && world.clouds.len() <= 3);
    assert!(1 <= world.boost_items.len() && world.boost_items.len() <= 4);
    assert!(1 <= world.fairies.len() && world.fairies.len() <= 3);
    let in_band = |p: &Point| {
        -200 * UNIT <= p.x && p.x <= 200 * UNIT && 700 * UNIT <= p.y && p.y <= 2_100 * UNIT
    };
    assert!(world.clouds.iter().all(|c| c.active && 0 <= c.sprite && c.sprite < 8 && in_band(&c.position)));
    assert!(world.boost_items.iter().all(|b| in_band(&b.position)));
    assert!(world.fairies.iter().all(|f| in_band(&f.position)));
    assert_eq!(world.level.next_boost_spawn_altitude, 700 * UNIT);
    assert_eq!(world.level.next_fairy_spawn_altitude, 700 * UNIT);
    assert!(700 * UNIT <= world.level.next_cloud_spawn_altitude);
    assert!(world.level.next_cloud_spawn_altitude <= 1_750 * UNIT);
}

#[test]
fn a_seed_replays_the_same_flight() {
    let fly = |seed: u64| -> (Coin, Vec<Cloud>, Vec<BoostItem>, Vec<Fairy>, LevelMetadata, i64) {
        let mut rng = StdRng::seed_from_u64(seed);
        let mut scores = Scores::default();
        let mut world = launched(800_000);
        let mut ticks = 0;
        loop {
            let controls = Controls { left: ticks % 7 < 3, right: ticks % 11 < 4, boost: ticks % 400 == 399 };
            ticks += 1;
            if tick(&mut world, &mut scores, &controls, 16, &mut rng).is_some() || ticks > 100_000 {
                break;
            }
        }
        (world.coin, world.clouds, world.boost_items, world.fairies, world.level, scores.end_score as i64)
    };
    let first = fly(5);
    assert_eq!(first, fly(5));
    assert!(first.0.speed < -400_000);
    assert!(first.5 > 0);
}

#[test]
fn every_flight_ends_and_keeps_its_invariants() {
    for seed in 0..20 {
        let mut rng = StdRng::seed_from_u64(seed);
        let mut scores = Scores::default();
        let mut world = launched(seed as i64 * 50_000);
        let mut highest = 0;
        let mut ticks = 0;
        let mut spent: Vec<Point> = Vec::new();
        loop {
            assert!(world.within_limits(17));
            let altitude = world.coin.altitude;
            let signal = tick(&mut world, &mut scores, &IDLE, 17, &mut rng);
            ticks += 1;
            assert!(world.coin.highest_altitude_recorded >= highest);
            assert!(world.coin.highest_altitude_recorded >= world.coin.altitude);
            assert!(world.coin.additional_boosts >= 0);
            assert!(world.animation.orientation.abs() <= 1_000_000);
            let climbed = world.coin.altitude - altitude;
            for p in spent.iter_mut() {
                p.y -= climbed;
            }
            spent.retain(|p| p.y >= -10_000 * UNIT);
            for p in spent.iter() {
                assert!(world.clouds.iter().any(|c| c.position == *p && !c.active));
            }
            for c in world.clouds.iter() {
                if !c.active && !spent.contains(&c.position) {
                    spent.push(c.position);
                }
            }
            highest = world.coin.highest_altitude_recorded;
            if signal.is_some() {
                assert_eq!(signal, Some(Signal::CoinLost));
                assert_eq!(scores.end_score as i64, highest / UNIT / 10);
                break;
            }
            assert!(ticks < 200_000);
        }
    }
}

#[test]
fn a_tick_without_a_due_batch_leaves_the_random_source_alone() {
    let mut used = StdRng::seed_from_u64(24);
    let mut fresh = StdRng::seed_from_u64(24);
    let mut scores = Scores::default();
    let mut world = quiet(1_000_000);
    world.clouds.push(Cloud { active: true, sprite: 0, position: Point::new(0, 0) });
    for _ in 0..50 {
        tick(&mut world, &mut scores, &IDLE, 16, &mut used);
    }
    let mut due = quiet(1_000_000);
    due.level.next_fairy_spawn_altitude = 0;
    let mut same = quiet(1_000_000);
    same.level.next_fairy_spawn_altitude = 0;
    tick(&mut due, &mut scores, &IDLE, 16, &mut used);
    tick(&mut same, &mut scores, &IDLE, 16, &mut fresh);
    assert!(!due.fairies.is_empty());
    assert_eq!(due.fairies, same.fairies);
}

#[test]
fn the_camera_in_the_world_steps_however_near_its_target() {
    let mut rng = StdRng::seed_from_u64(1);
    let mut scores = Scores::default();
    let mut world = quiet(1_000_000);
    world.camera_y = 149_995_000;
    tick(&mut world, &mut scores, &IDLE, 1_000, &mut rng);
    assert_eq!(world.camera_y, 150_000_000);
}
